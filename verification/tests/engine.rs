use hello_world::engine::HelloContract;
use hello_world::errors::Error;
use hello_world::store::KeyedStore;

const DEFAULT_TTL: u32 = 10;

#[test]
fn test_initialize() {
    let mut store = KeyedStore::new(DEFAULT_TTL);
    let admin: u64 = 1;

    assert!(HelloContract::initialize(&mut store, admin).is_ok());

    assert_eq!(HelloContract::get_contador(&store), 0);
}

#[test]
fn test_no_reinicializar() {
    let mut store = KeyedStore::new(DEFAULT_TTL);
    let admin: u64 = 1;

    assert!(HelloContract::initialize(&mut store, admin).is_ok());

    // A second initialization must fail and change nothing.
    assert_eq!(
        HelloContract::initialize(&mut store, admin),
        Err(Error::AlreadyInitialized)
    );
    assert_eq!(HelloContract::get_contador(&store), 0);
}

#[test]
fn test_hello_exitoso() {
    let mut store = KeyedStore::new(DEFAULT_TTL);
    let admin: u64 = 1;
    let usuario: u64 = 2;

    assert!(HelloContract::initialize(&mut store, admin).is_ok());

    let nombre = String::from("Ana");
    let resultado = HelloContract::hello(&mut store, usuario, nombre.clone());

    assert_eq!(resultado, Ok(String::from("Hola")));
    assert_eq!(HelloContract::get_contador(&store), 1);
    assert_eq!(
        HelloContract::get_ultimo_saludo(&store, usuario),
        Some(nombre)
    );
}

#[test]
fn test_nombre_vacio() {
    let mut store = KeyedStore::new(DEFAULT_TTL);
    let admin: u64 = 1;
    let usuario: u64 = 2;

    assert!(HelloContract::initialize(&mut store, admin).is_ok());

    let vacio = String::from("");
    assert_eq!(
        HelloContract::hello(&mut store, usuario, vacio),
        Err(Error::EmptyName)
    );
    assert_eq!(HelloContract::get_contador(&store), 0);
}

#[test]
fn test_reset_solo_admin() {
    let mut store = KeyedStore::new(DEFAULT_TTL);
    let admin: u64 = 1;
    let usuario: u64 = 3;

    assert!(HelloContract::initialize(&mut store, admin).is_ok());

    assert!(HelloContract::hello(&mut store, usuario, String::from("Test")).is_ok());
    assert_eq!(HelloContract::get_contador(&store), 1);

    assert!(HelloContract::reset_contador(&mut store, admin).is_ok());
    assert_eq!(HelloContract::get_contador(&store), 0);
}

#[test]
fn test_reset_no_autorizado() {
    let mut store = KeyedStore::new(DEFAULT_TTL);
    let admin: u64 = 1;
    let otro: u64 = 2;

    assert!(HelloContract::initialize(&mut store, admin).is_ok());

    assert_eq!(
        HelloContract::reset_contador(&mut store, otro),
        Err(Error::Unauthorized)
    );
}

#[test]
fn test_contador_usuario() {
    let mut store = KeyedStore::new(DEFAULT_TTL);
    let usuario: u64 = 4;

    // Seed the scoped entry directly through the store adapter.
    store.set_user_count(usuario, 3);

    assert_eq!(HelloContract::get_contador_usuario(&store, usuario), 3);
}

#[test]
fn error_codes_are_stable() {
    assert_eq!(Error::EmptyName.code(), 1);
    assert_eq!(Error::NameTooLong.code(), 2);
    assert_eq!(Error::Unauthorized.code(), 3);
    assert_eq!(Error::NotInitialized.code(), 4);
    assert_eq!(Error::AlreadyInitialized.code(), 5);
}

#[test]
fn privileged_operations_need_initialization() {
    let mut store = KeyedStore::new(DEFAULT_TTL);

    assert_eq!(
        HelloContract::reset_contador(&mut store, 1),
        Err(Error::NotInitialized)
    );
    assert_eq!(
        HelloContract::transfer_admin(&mut store, 1, 2),
        Err(Error::NotInitialized)
    );
    assert_eq!(
        HelloContract::set_limite(&mut store, 1, 5),
        Err(Error::NotInitialized)
    );
}

#[test]
fn non_admin_callers_change_nothing() {
    let mut store = KeyedStore::new(DEFAULT_TTL);
    let admin: u64 = 1;
    let otro: u64 = 2;

    assert!(HelloContract::initialize(&mut store, admin).is_ok());
    assert!(HelloContract::hello(&mut store, otro, String::from("Eva")).is_ok());

    assert_eq!(
        HelloContract::transfer_admin(&mut store, otro, otro),
        Err(Error::Unauthorized)
    );
    assert_eq!(
        HelloContract::set_limite(&mut store, otro, 1),
        Err(Error::Unauthorized)
    );
    assert_eq!(
        HelloContract::reset_contador(&mut store, otro),
        Err(Error::Unauthorized)
    );

    // The admin is still in charge and the state is as the greeting left it.
    assert_eq!(HelloContract::get_contador(&store), 1);
    assert!(HelloContract::reset_contador(&mut store, admin).is_ok());
}

#[test]
fn limit_boundary_is_inclusive() {
    let mut store = KeyedStore::new(DEFAULT_TTL);
    let admin: u64 = 1;
    let usuario: u64 = 2;

    assert!(HelloContract::initialize(&mut store, admin).is_ok());
    assert!(HelloContract::set_limite(&mut store, admin, 4).is_ok());

    // Length exactly at the limit passes; one more character fails.
    assert!(HelloContract::hello(&mut store, usuario, String::from("Rosa")).is_ok());
    assert_eq!(
        HelloContract::hello(&mut store, usuario, String::from("Mario")),
        Err(Error::NameTooLong)
    );
    assert_eq!(HelloContract::get_contador(&store), 1);
}

#[test]
fn default_limit_applies_when_unset() {
    let mut store = KeyedStore::new(DEFAULT_TTL);
    let admin: u64 = 1;
    let usuario: u64 = 2;

    assert!(HelloContract::initialize(&mut store, admin).is_ok());

    let at_default = "x".repeat(32);
    let over_default = "x".repeat(33);
    assert!(HelloContract::hello(&mut store, usuario, at_default).is_ok());
    assert_eq!(
        HelloContract::hello(&mut store, usuario, over_default),
        Err(Error::NameTooLong)
    );
}

#[test]
fn zero_limit_rejects_every_nonempty_name() {
    let mut store = KeyedStore::new(DEFAULT_TTL);
    let admin: u64 = 1;

    assert!(HelloContract::initialize(&mut store, admin).is_ok());
    assert!(HelloContract::set_limite(&mut store, admin, 0).is_ok());

    assert_eq!(
        HelloContract::hello(&mut store, 2, String::from("a")),
        Err(Error::NameTooLong)
    );
    assert_eq!(
        HelloContract::hello(&mut store, 2, String::from("")),
        Err(Error::EmptyName)
    );
}

#[test]
fn per_identity_counters_are_isolated() {
    let mut store = KeyedStore::new(DEFAULT_TTL);
    let admin: u64 = 1;
    let ana: u64 = 2;
    let beto: u64 = 3;

    assert!(HelloContract::initialize(&mut store, admin).is_ok());
    assert!(HelloContract::hello(&mut store, ana, String::from("Ana")).is_ok());
    assert!(HelloContract::hello(&mut store, beto, String::from("Beto")).is_ok());
    assert!(HelloContract::hello(&mut store, beto, String::from("Beto")).is_ok());

    assert_eq!(HelloContract::get_contador_usuario(&store, ana), 1);
    assert_eq!(HelloContract::get_contador_usuario(&store, beto), 2);
    assert_eq!(
        HelloContract::get_ultimo_saludo(&store, ana),
        Some(String::from("Ana"))
    );
    assert_eq!(HelloContract::get_contador(&store), 3);
}

#[test]
fn reset_touches_only_the_shared_counter() {
    let mut store = KeyedStore::new(DEFAULT_TTL);
    let admin: u64 = 1;
    let usuario: u64 = 2;

    assert!(HelloContract::initialize(&mut store, admin).is_ok());
    assert!(HelloContract::hello(&mut store, usuario, String::from("Iris")).is_ok());
    assert!(HelloContract::reset_contador(&mut store, admin).is_ok());

    assert_eq!(HelloContract::get_contador(&store), 0);
    assert_eq!(HelloContract::get_contador_usuario(&store, usuario), 1);
    assert_eq!(
        HelloContract::get_ultimo_saludo(&store, usuario),
        Some(String::from("Iris"))
    );
}

#[test]
fn transferred_admin_takes_over() {
    let mut store = KeyedStore::new(DEFAULT_TTL);
    let admin: u64 = 1;
    let nuevo: u64 = 2;

    assert!(HelloContract::initialize(&mut store, admin).is_ok());
    assert!(HelloContract::transfer_admin(&mut store, admin, nuevo).is_ok());

    // The old admin has lost the role; the new one holds it.
    assert_eq!(
        HelloContract::reset_contador(&mut store, admin),
        Err(Error::Unauthorized)
    );
    assert!(HelloContract::reset_contador(&mut store, nuevo).is_ok());
}

#[test]
fn never_greeted_reads_as_absent() {
    let mut store = KeyedStore::new(DEFAULT_TTL);

    assert_eq!(HelloContract::get_ultimo_saludo(&store, 9), None);
    assert_eq!(HelloContract::get_contador_usuario(&store, 9), 0);
    assert_eq!(HelloContract::get_contador(&store), 0);
}

#[test]
fn full_scenario() {
    let mut store = KeyedStore::new(DEFAULT_TTL);
    let admin: u64 = 1;
    let usuario: u64 = 2;

    assert!(HelloContract::initialize(&mut store, admin).is_ok());
    assert_eq!(HelloContract::get_contador(&store), 0);

    assert_eq!(
        HelloContract::hello(&mut store, usuario, String::from("Ana")),
        Ok(String::from("Hola"))
    );
    assert_eq!(HelloContract::get_contador(&store), 1);
    assert_eq!(HelloContract::get_contador_usuario(&store, usuario), 1);
    assert_eq!(
        HelloContract::get_ultimo_saludo(&store, usuario),
        Some(String::from("Ana"))
    );

    assert_eq!(
        HelloContract::hello(&mut store, usuario, String::from("")),
        Err(Error::EmptyName)
    );
    assert_eq!(HelloContract::get_contador(&store), 1);
    assert_eq!(HelloContract::get_contador_usuario(&store, usuario), 1);

    assert!(HelloContract::reset_contador(&mut store, admin).is_ok());
    assert_eq!(HelloContract::get_contador(&store), 0);

    assert_eq!(
        HelloContract::reset_contador(&mut store, usuario),
        Err(Error::Unauthorized)
    );
}

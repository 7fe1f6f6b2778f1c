use vstd::prelude::*;
use vstd::string::StrSliceExecFns;
use crate::errors::Error;
use crate::pipeline;
use crate::store::{
    renewed, DataKey, Identity, KeyedStore, StoreView, DEFAULT_LIMIT, TTL_EXTENSION,
};

verus! {

/// The store state after a successful `initialize`: the admin is recorded,
/// the shared counter starts at zero, the limit at its default, and the
/// global tier's lifetime is renewed once. Nothing scoped is touched.
pub open spec fn spec_initialize(s: StoreView, admin: Identity) -> (StoreView, Result<
    (),
    Error,
>) {
    if s.admin is Some {
        (s, Err(Error::AlreadyInitialized))
    } else {
        (
            StoreView {
                admin: Some(admin),
                counter: Some(0u32),
                limit: Some(DEFAULT_LIMIT),
                global_ttl: renewed(s.global_ttl, TTL_EXTENSION, TTL_EXTENSION),
                ..s
            },
            Ok(()),
        )
    }
}

/// Whether `hello` succeeds from state `s` with the given name: the name is
/// non-empty and no longer than the limit in force.
pub open spec fn spec_hello_ok(s: StoreView, name: String) -> bool {
    0 < name@.len() <= s.effective_limit()
}

/// The error a failing `hello` reports: the empty name first, then the
/// over-long one, in the pipeline's order.
pub open spec fn spec_hello_err(s: StoreView, name: String) -> Error {
    if name@.len() == 0 {
        Error::EmptyName
    } else {
        Error::NameTooLong
    }
}

/// The store state after a `hello` by `caller` with `name`. On success: the
/// shared counter and the caller's counter each grow by one, the caller's
/// last greeting is overwritten, and the lifetimes of the caller's greeting
/// entry and of the global tier are renewed. A rejected call leaves the
/// state exactly as it was.
pub open spec fn spec_hello_state(s: StoreView, caller: Identity, name: String) -> StoreView {
    if spec_hello_ok(s, name) {
        StoreView {
            counter: Some((s.counter_or_zero() + 1) as u32),
            user_counts: s.user_counts.insert(caller, (s.user_count_or_zero(caller) + 1) as u32),
            user_count_ttl: s.user_count_ttl.insert(
                caller,
                if s.user_count_ttl.contains_key(caller) {
                    s.user_count_ttl[caller]
                } else {
                    s.default_ttl
                },
            ),
            greetings: s.greetings.insert(caller, name),
            greeting_ttl: s.greeting_ttl.insert(
                caller,
                renewed(
                    if s.greeting_ttl.contains_key(caller) {
                        s.greeting_ttl[caller]
                    } else {
                        s.default_ttl
                    },
                    TTL_EXTENSION,
                    TTL_EXTENSION,
                ),
            ),
            global_ttl: renewed(s.global_ttl, TTL_EXTENSION, TTL_EXTENSION),
            ..s
        }
    } else {
        s
    }
}

/// The store state and result of `reset_contador`: behind the admin gate,
/// the shared counter is set back to zero; nothing scoped is touched and no
/// lifetime is renewed.
pub open spec fn spec_reset(s: StoreView, caller: Identity) -> (StoreView, Result<(), Error>) {
    match s.admin {
        None => (s, Err(Error::NotInitialized)),
        Some(a) => if caller != a {
            (s, Err(Error::Unauthorized))
        } else {
            (StoreView { counter: Some(0u32), ..s }, Ok(()))
        },
    }
}

/// The store state and result of `transfer_admin`: behind the admin gate,
/// the admin singleton is overwritten. By design no lifetime is renewed.
pub open spec fn spec_transfer_admin(s: StoreView, caller: Identity, nuevo_admin: Identity) -> (
    StoreView,
    Result<(), Error>,
) {
    match s.admin {
        None => (s, Err(Error::NotInitialized)),
        Some(a) => if caller != a {
            (s, Err(Error::Unauthorized))
        } else {
            (StoreView { admin: Some(nuevo_admin), ..s }, Ok(()))
        },
    }
}

/// The store state and result of `set_limite`: behind the admin gate, the
/// limit singleton is overwritten. Any value is accepted, zero included.
pub open spec fn spec_set_limite(s: StoreView, caller: Identity, limite: u32) -> (
    StoreView,
    Result<(), Error>,
) {
    match s.admin {
        None => (s, Err(Error::NotInitialized)),
        Some(a) => if caller != a {
            (s, Err(Error::Unauthorized))
        } else {
            (StoreView { limit: Some(limite), ..s }, Ok(()))
        },
    }
}

/// The counter/record engine. It owns no state of its own: every operation
/// reads and writes the keyed store handed to it, after the validation
/// pipeline has passed, and never writes when a check fails.
pub struct HelloContract;

impl HelloContract {
    /// Records the admin, starts the shared counter at zero, sets the
    /// default character limit and renews the global tier once. Fails with
    /// `AlreadyInitialized`, writing nothing, when an admin already exists.
    pub fn initialize(store: &mut KeyedStore, admin: Identity) -> (r: Result<(), Error>)
        requires
            old(store)@.wf(),
        ensures
            final(store)@.wf(),
            (final(store)@, r) == spec_initialize(old(store)@, admin),
    {
        if let Err(e) = pipeline::require_uninitialized(store) {
            return Err(e);
        }
        store.set_admin(admin);
        store.set_counter(0);
        store.renew_global(TTL_EXTENSION, TTL_EXTENSION);
        store.set_limit(DEFAULT_LIMIT);
        Ok(())
    }

    /// Greets: after the input-shape checks pass, increments the shared and
    /// the caller's counters, overwrites the caller's last greeting, renews
    /// that entry's lifetime and the global tier's, and returns the fixed
    /// acknowledgement. A first-time caller's counter is created at one.
    /// Rejected calls write nothing.
    pub fn hello(store: &mut KeyedStore, usuario: Identity, nombre: String) -> (r: Result<
        String,
        Error,
    >)
        requires
            old(store)@.wf(),
            old(store)@.counter_or_zero() < u32::MAX,
            old(store)@.user_count_or_zero(usuario) < u32::MAX,
        ensures
            final(store)@.wf(),
            final(store)@ == spec_hello_state(old(store)@, usuario, nombre),
            spec_hello_ok(old(store)@, nombre) ==> (r matches Ok(ack) && ack@ == "Hola"@),
            !spec_hello_ok(old(store)@, nombre) ==> r == Err::<String, Error>(
                spec_hello_err(old(store)@, nombre),
            ),
    {
        let len = nombre.as_str().unicode_len();
        let limite = store.limit_or_default();
        if let Err(e) = pipeline::check_name_shape(len, limite) {
            return Err(e);
        }
        let contador = store.counter_or_zero();
        store.set_counter(contador + 1);
        let contador_usuario = store.user_count_or_zero(usuario);
        store.set_user_count(usuario, contador_usuario + 1);
        store.set_greeting(usuario, nombre);
        store.renew_scoped(&DataKey::UltimoSaludo(usuario), TTL_EXTENSION, TTL_EXTENSION);
        store.renew_global(TTL_EXTENSION, TTL_EXTENSION);
        proof {
            assert(store@ =~= spec_hello_state(old(store)@, usuario, nombre));
        }
        Ok("Hola".to_owned())
    }

    /// Pure read of the shared greeting counter; zero when absent, so the
    /// pre-initialization state reads without erroring.
    pub fn get_contador(store: &KeyedStore) -> (c: u32)
        ensures
            c == store@.counter_or_zero(),
    {
        store.counter_or_zero()
    }

    /// Pure read of one identity's last greeting; `None` where it never
    /// greeted.
    pub fn get_ultimo_saludo(store: &KeyedStore, usuario: Identity) -> (g: Option<String>)
        ensures
            g matches Some(text) ==> store@.greeting_of(usuario) == Some(text@),
            g is None ==> store@.greeting_of(usuario) is None,
    {
        store.last_greeting(usuario)
    }

    /// Pure read of one identity's greeting counter; zero when absent.
    pub fn get_contador_usuario(store: &KeyedStore, usuario: Identity) -> (c: u32)
        ensures
            c == store@.user_count_or_zero(usuario),
    {
        store.user_count_or_zero(usuario)
    }

    /// Sets the shared counter back to zero. Only the admin may: before one
    /// exists the call fails with `NotInitialized`, for any other caller
    /// with `Unauthorized`, and a failing call writes nothing. Per-identity
    /// counters and greetings are out of this operation's scope.
    pub fn reset_contador(store: &mut KeyedStore, caller: Identity) -> (r: Result<(), Error>)
        requires
            old(store)@.wf(),
        ensures
            final(store)@.wf(),
            (final(store)@, r) == spec_reset(old(store)@, caller),
    {
        if let Err(e) = pipeline::admin_gate(store, caller) {
            return Err(e);
        }
        store.set_counter(0);
        Ok(())
    }

    /// Hands the admin role to `nuevo_admin`. Guarded exactly as
    /// `reset_contador`; a failing call writes nothing, and no lifetime is
    /// renewed by design.
    pub fn transfer_admin(store: &mut KeyedStore, caller: Identity, nuevo_admin: Identity) -> (r:
        Result<(), Error>)
        requires
            old(store)@.wf(),
        ensures
            final(store)@.wf(),
            (final(store)@, r) == spec_transfer_admin(old(store)@, caller, nuevo_admin),
    {
        if let Err(e) = pipeline::admin_gate(store, caller) {
            return Err(e);
        }
        store.set_admin(nuevo_admin);
        Ok(())
    }

    /// Overwrites the character limit. Guarded exactly as `reset_contador`.
    /// Any value is accepted, zero included: that a zero limit makes every
    /// later non-empty name fail is the caller's responsibility.
    pub fn set_limite(store: &mut KeyedStore, caller: Identity, limite: u32) -> (r: Result<
        (),
        Error,
    >)
        requires
            old(store)@.wf(),
        ensures
            final(store)@.wf(),
            (final(store)@, r) == spec_set_limite(old(store)@, caller, limite),
    {
        if let Err(e) = pipeline::admin_gate(store, caller) {
            return Err(e);
        }
        store.set_limit(limite);
        Ok(())
    }
}

} // verus!

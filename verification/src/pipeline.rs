use vstd::prelude::*;
use crate::errors::Error;
use crate::guard;
use crate::store::{DataKey, Identity, KeyedStore};

verus! {

/// Initialization check for operations that require an admin: looks the
/// admin identity up and fails with `NotInitialized` when none is recorded.
pub fn require_admin(store: &KeyedStore) -> (r: Result<Identity, Error>)
    ensures
        store@.admin matches Some(a) ==> r == Ok::<Identity, Error>(a),
        store@.admin is None ==> r == Err::<Identity, Error>(Error::NotInitialized),
{
    match store.admin() {
        Some(a) => Ok(a),
        None => Err(Error::NotInitialized),
    }
}

/// The inverted initialization check for `initialize` itself: the presence
/// of an admin fails with `AlreadyInitialized`. Uses the existence test, not
/// a read, since the value does not matter here.
pub fn require_uninitialized(store: &KeyedStore) -> (r: Result<(), Error>)
    ensures
        store@.admin is None ==> r == Ok::<(), Error>(()),
        store@.admin is Some ==> r == Err::<(), Error>(Error::AlreadyInitialized),
{
    if store.has(&DataKey::Admin) {
        Err(Error::AlreadyInitialized)
    } else {
        Ok(())
    }
}

/// The shared validation prefix of the privileged operations: the
/// initialization check, then the authorization check, short-circuiting in
/// that order.
pub fn admin_gate(store: &KeyedStore, caller: Identity) -> (r: Result<(), Error>)
    ensures
        store@.admin is None ==> r == Err::<(), Error>(Error::NotInitialized),
        (store@.admin matches Some(a) && caller != a) ==> r == Err::<(), Error>(
            Error::Unauthorized,
        ),
        store@.admin == Some(caller) ==> r == Ok::<(), Error>(()),
{
    match require_admin(store) {
        Ok(owner) => guard::authorize(caller, owner),
        Err(e) => Err(e),
    }
}

/// Input-shape check for `hello`: a zero-length name fails with
/// `EmptyName`; a name longer than the limit in force fails with
/// `NameTooLong`. Both run before any write.
pub fn check_name_shape(name_len: usize, limit: u32) -> (r: Result<(), Error>)
    ensures
        name_len == 0 ==> r == Err::<(), Error>(Error::EmptyName),
        name_len > 0 && name_len > limit ==> r == Err::<(), Error>(Error::NameTooLong),
        0 < name_len <= limit ==> r == Ok::<(), Error>(()),
{
    if name_len == 0 {
        Err(Error::EmptyName)
    } else if name_len > limit as usize {
        Err(Error::NameTooLong)
    } else {
        Ok(())
    }
}

} // verus!

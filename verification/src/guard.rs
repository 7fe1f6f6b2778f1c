use vstd::prelude::*;
use crate::errors::Error;
use crate::store::Identity;

verus! {

/// The identity and authorization guard: a pure comparison between the
/// caller and the recorded owner. The owner is looked up by the caller of
/// this function, so what "uninitialized" means stays out of the comparison.
pub fn authorize(caller: Identity, recorded_owner: Identity) -> (r: Result<(), Error>)
    ensures
        caller == recorded_owner ==> r == Ok::<(), Error>(()),
        caller != recorded_owner ==> r == Err::<(), Error>(Error::Unauthorized),
{
    if caller == recorded_owner {
        Ok(())
    } else {
        Err(Error::Unauthorized)
    }
}

} // verus!

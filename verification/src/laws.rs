use vstd::prelude::*;
use crate::engine::{
    spec_hello_err, spec_hello_ok, spec_hello_state, spec_initialize, spec_reset,
    spec_set_limite, spec_transfer_admin,
};
use crate::errors::Error;
use crate::store::{Identity, StoreView};

verus! {

/// One `hello` invocation, as a law speaks of it: who called, and with
/// which name.
pub struct HelloCall {
    pub caller: Identity,
    pub name: String,
}

/// The store state after a run of `hello` calls, first call first.
pub open spec fn run_hellos(s: StoreView, calls: Seq<HelloCall>) -> StoreView
    decreases calls.len(),
{
    if calls.len() == 0 {
        s
    } else {
        run_hellos(
            spec_hello_state(s, calls[0].caller, calls[0].name),
            calls.subrange(1, calls.len() as int),
        )
    }
}

/// How many of the calls in the run succeed.
pub open spec fn successes(s: StoreView, calls: Seq<HelloCall>) -> nat
    decreases calls.len(),
{
    if calls.len() == 0 {
        0nat
    } else {
        (if spec_hello_ok(s, calls[0].name) {
            1nat
        } else {
            0nat
        }) + successes(
            spec_hello_state(s, calls[0].caller, calls[0].name),
            calls.subrange(1, calls.len() as int),
        )
    }
}

/// Law: initialization succeeds exactly once. From an uninitialized store
/// the first `initialize` succeeds and records its admin; any `initialize`
/// after that fails with `AlreadyInitialized` and leaves the whole state —
/// the admin identity, the shared counter and the character limit included —
/// unchanged.
pub proof fn lemma_initialize_once(s0: StoreView, first_admin: Identity, later_admin: Identity)
    requires
        s0.admin is None,
    ensures
        ({
            let (s1, r1) = spec_initialize(s0, first_admin);
            let (s2, r2) = spec_initialize(s1, later_admin);
            &&& r1 == Ok::<(), Error>(())
            &&& s1.admin == Some(first_admin)
            &&& r2 == Err::<(), Error>(Error::AlreadyInitialized)
            &&& s2 == s1
        }),
{
}

/// Law: counter monotonicity. A run of `hello` calls, by any mix of
/// identities and with no intervening reset, leaves the shared counter
/// higher by exactly the number of successful calls. From a counter at
/// zero, after N successful calls it reads N. The bound keeps the counter
/// inside its machine width.
pub proof fn lemma_counter_counts_successes(s: StoreView, calls: Seq<HelloCall>)
    requires
        s.counter_or_zero() + successes(s, calls) <= u32::MAX,
    ensures
        run_hellos(s, calls).counter_or_zero() == s.counter_or_zero() + successes(s, calls),
    decreases calls.len(),
{
    if calls.len() > 0 {
        let s1 = spec_hello_state(s, calls[0].caller, calls[0].name);
        let rest = calls.subrange(1, calls.len() as int);
        lemma_counter_counts_successes(s1, rest);
    }
}

/// Law: per-identity isolation, one step. A `hello` by one identity leaves
/// every other identity's counter and last greeting untouched.
pub proof fn lemma_hello_isolated(s: StoreView, caller: Identity, name: String, other: Identity)
    requires
        other != caller,
    ensures
        spec_hello_state(s, caller, name).user_count_or_zero(other) == s.user_count_or_zero(
            other,
        ),
        spec_hello_state(s, caller, name).greeting_of(other) == s.greeting_of(other),
{
}

/// Law: per-identity isolation over a whole run. However many `hello` calls
/// other identities make, an identity that makes none keeps its counter and
/// its last greeting.
pub proof fn lemma_run_isolated(s: StoreView, calls: Seq<HelloCall>, other: Identity)
    requires
        forall|i: int| 0 <= i < calls.len() ==> (#[trigger] calls[i]).caller != other,
    ensures
        run_hellos(s, calls).user_count_or_zero(other) == s.user_count_or_zero(other),
        run_hellos(s, calls).greeting_of(other) == s.greeting_of(other),
    decreases calls.len(),
{
    if calls.len() > 0 {
        let s1 = spec_hello_state(s, calls[0].caller, calls[0].name);
        let rest = calls.subrange(1, calls.len() as int);
        lemma_run_isolated(s1, rest, other);
    }
}

/// Law: reset scope. A reset by the admin succeeds, sets the shared counter
/// to zero, and touches nothing scoped: every identity's counter and last
/// greeting, and every lifetime, stay as they were.
pub proof fn lemma_reset_scope(s: StoreView, caller: Identity)
    requires
        s.admin == Some(caller),
    ensures
        ({
            let (s1, r) = spec_reset(s, caller);
            &&& r == Ok::<(), Error>(())
            &&& s1.counter_or_zero() == 0
            &&& s1.user_counts == s.user_counts
            &&& s1.greetings == s.greetings
            &&& s1.user_count_ttl == s.user_count_ttl
            &&& s1.greeting_ttl == s.greeting_ttl
            &&& s1.global_ttl == s.global_ttl
        }),
{
}

/// Law: authorization enforcement. Each privileged operation, called by any
/// identity other than the recorded admin, fails with `Unauthorized` and
/// changes nothing.
pub proof fn lemma_authorization_enforced(
    s: StoreView,
    caller: Identity,
    nuevo_admin: Identity,
    limite: u32,
)
    requires
        s.admin is Some,
        s.admin != Some(caller),
    ensures
        spec_reset(s, caller) == (s, Err::<(), Error>(Error::Unauthorized)),
        spec_transfer_admin(s, caller, nuevo_admin) == (s, Err::<(), Error>(Error::Unauthorized)),
        spec_set_limite(s, caller, limite) == (s, Err::<(), Error>(Error::Unauthorized)),
{
}

/// Law: limit boundary. With a character limit of `l` in force, a name of
/// length exactly `l` passes the shape checks, and one of length `l + 1`
/// fails with `NameTooLong`. A limit of zero is left out: the length-zero
/// name is rejected as empty, not accepted.
pub proof fn lemma_limit_boundary(s: StoreView, l: u32, exact: String, over: String)
    requires
        s.effective_limit() == l,
        l >= 1,
        exact@.len() == l,
        over@.len() == l + 1,
    ensures
        spec_hello_ok(s, exact),
        !spec_hello_ok(s, over),
        spec_hello_err(s, over) == Error::NameTooLong,
{
}

} // verus!

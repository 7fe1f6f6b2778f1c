use vstd::prelude::*;
use std::collections::HashMap;

verus! {

broadcast use vstd::std_specs::hash::group_hash_axioms;

/// An opaque, comparable identity handle. Equality is the only operation the
/// engine ever performs on one.
pub type Identity = u64;

/// The character limit that applies while no explicit limit is stored.
pub const DEFAULT_LIMIT: u32 = 32;

/// The fixed floor and ceiling, in time units, that the engine passes to
/// every renewal call.
pub const TTL_EXTENSION: u32 = 100;

/// The keyspace of the store: three global singletons and two families of
/// per-identity keys.
#[derive(Clone, Debug, PartialEq, Eq, Structural)]
pub enum DataKey {
    /// Global singleton: the distinguished admin identity.
    Admin,
    /// Global singleton: the shared greeting counter.
    ContadorSaludos,
    /// Scoped: the last greeting recorded for one identity.
    UltimoSaludo(Identity),
    /// Scoped: the greeting counter of one identity.
    ContadorPorUsuario(Identity),
    /// Global singleton: the configured character limit.
    LimiteCaracteres,
}

/// The remaining lifetime of an entry after one renewal call. When the
/// remaining lifetime has fallen below `min`, the entry is extended to live
/// `max` more time units; otherwise it is left alone. At every call site
/// `min <= max` holds, so afterwards the lifetime is at least `min`, and a
/// single renewal never extends an entry to more than `max`.
pub open spec fn renewed(ttl: u32, min: u32, max: u32) -> u32 {
    if ttl < min {
        max
    } else {
        ttl
    }
}

/// The abstract state of the keyed store: the three global singletons with
/// one shared remaining lifetime, and the two per-identity families, each
/// entry with a remaining lifetime of its own.
#[verifier::ext_equal]
pub struct StoreView {
    pub admin: Option<Identity>,
    pub counter: Option<u32>,
    pub limit: Option<u32>,
    /// Remaining lifetime of the global tier as a whole.
    pub global_ttl: u32,
    /// Lifetime given to the global tier at creation and to each scoped
    /// entry when it is first written.
    pub default_ttl: u32,
    pub greetings: Map<Identity, String>,
    pub greeting_ttl: Map<Identity, u32>,
    pub user_counts: Map<Identity, u32>,
    pub user_count_ttl: Map<Identity, u32>,
}

impl StoreView {
    /// Well-formed store state: every scoped entry carries a remaining
    /// lifetime of its own, and nothing else does.
    pub open spec fn wf(self) -> bool {
        &&& self.greetings.dom() == self.greeting_ttl.dom()
        &&& self.user_counts.dom() == self.user_count_ttl.dom()
    }

    /// Whether an entry exists under the given key.
    pub open spec fn contains(self, key: DataKey) -> bool {
        match key {
            DataKey::Admin => self.admin is Some,
            DataKey::ContadorSaludos => self.counter is Some,
            DataKey::LimiteCaracteres => self.limit is Some,
            DataKey::UltimoSaludo(id) => self.greetings.contains_key(id),
            DataKey::ContadorPorUsuario(id) => self.user_counts.contains_key(id),
        }
    }

    /// The shared greeting counter; absence reads as zero.
    pub open spec fn counter_or_zero(self) -> u32 {
        match self.counter {
            Some(c) => c,
            None => 0u32,
        }
    }

    /// The character limit in force; absence reads as the default.
    pub open spec fn effective_limit(self) -> u32 {
        match self.limit {
            Some(l) => l,
            None => DEFAULT_LIMIT,
        }
    }

    /// The greeting counter of one identity; absence reads as zero.
    pub open spec fn user_count_or_zero(self, id: Identity) -> u32 {
        if self.user_counts.contains_key(id) {
            self.user_counts[id]
        } else {
            0u32
        }
    }

    /// The last greeting recorded for one identity, as its character
    /// sequence; `None` means the identity never greeted.
    pub open spec fn greeting_of(self, id: Identity) -> Option<Seq<char>> {
        if self.greetings.contains_key(id) {
            Some(self.greetings[id]@)
        } else {
            None
        }
    }

    /// The remaining lifetime of a scoped entry, `None` where no entry
    /// exists under the key or the key is a global one.
    pub open spec fn scoped_ttl(self, key: DataKey) -> Option<u32> {
        match key {
            DataKey::UltimoSaludo(id) => if self.greeting_ttl.contains_key(id) {
                Some(self.greeting_ttl[id])
            } else {
                None
            },
            DataKey::ContadorPorUsuario(id) => if self.user_count_ttl.contains_key(id) {
                Some(self.user_count_ttl[id])
            } else {
                None
            },
            _ => None,
        }
    }
}

/// The keyed store adapter: two storage tiers behind one interface. The
/// global tier holds the small shared singletons and renews their lifetime
/// together; the scoped tier holds the per-identity entries, each with an
/// independent lifetime. Reads that tolerate absence are offered as
/// read-with-default combinators, so the default policy stands in one place.
pub struct KeyedStore {
    default_ttl: u32,
    global_ttl: u32,
    admin: Option<Identity>,
    counter: Option<u32>,
    limit: Option<u32>,
    greetings: HashMap<Identity, String>,
    greeting_ttl: HashMap<Identity, u32>,
    user_counts: HashMap<Identity, u32>,
    user_count_ttl: HashMap<Identity, u32>,
}

impl View for KeyedStore {
    type V = StoreView;

    closed spec fn view(&self) -> StoreView {
        StoreView {
            admin: self.admin,
            counter: self.counter,
            limit: self.limit,
            global_ttl: self.global_ttl,
            default_ttl: self.default_ttl,
            greetings: self.greetings@,
            greeting_ttl: self.greeting_ttl@,
            user_counts: self.user_counts@,
            user_count_ttl: self.user_count_ttl@,
        }
    }
}

impl KeyedStore {
    /// An empty store. New entries receive `default_ttl` as their initial
    /// remaining lifetime; the global tier starts with it as well.
    pub fn new(default_ttl: u32) -> (s: KeyedStore)
        ensures
            s@.wf(),
            s@.admin == Option::<Identity>::None,
            s@.counter == Option::<u32>::None,
            s@.limit == Option::<u32>::None,
            s@.global_ttl == default_ttl,
            s@.default_ttl == default_ttl,
            s@.greetings == Map::<Identity, String>::empty(),
            s@.greeting_ttl == Map::<Identity, u32>::empty(),
            s@.user_counts == Map::<Identity, u32>::empty(),
            s@.user_count_ttl == Map::<Identity, u32>::empty(),
    {
        KeyedStore {
            default_ttl,
            global_ttl: default_ttl,
            admin: None,
            counter: None,
            limit: None,
            greetings: HashMap::new(),
            greeting_ttl: HashMap::new(),
            user_counts: HashMap::new(),
            user_count_ttl: HashMap::new(),
        }
    }

    /// Whether an entry exists under the given key, without reading it.
    pub fn has(&self, key: &DataKey) -> (r: bool)
        ensures
            r == self@.contains(*key),
    {
        match key {
            DataKey::Admin => self.admin.is_some(),
            DataKey::ContadorSaludos => self.counter.is_some(),
            DataKey::LimiteCaracteres => self.limit.is_some(),
            DataKey::UltimoSaludo(id) => self.greetings.contains_key(id),
            DataKey::ContadorPorUsuario(id) => self.user_counts.contains_key(id),
        }
    }

    /// The recorded admin identity, if any.
    pub fn admin(&self) -> (a: Option<Identity>)
        ensures
            a == self@.admin,
    {
        self.admin
    }

    /// Read-with-default: the shared greeting counter, zero when absent.
    pub fn counter_or_zero(&self) -> (c: u32)
        ensures
            c == self@.counter_or_zero(),
    {
        match self.counter {
            Some(c) => c,
            None => 0,
        }
    }

    /// Read-with-default: the character limit, the default when absent.
    pub fn limit_or_default(&self) -> (l: u32)
        ensures
            l == self@.effective_limit(),
    {
        match self.limit {
            Some(l) => l,
            None => DEFAULT_LIMIT,
        }
    }

    /// Read-with-default: one identity's greeting counter, zero when absent.
    pub fn user_count_or_zero(&self, id: Identity) -> (c: u32)
        ensures
            c == self@.user_count_or_zero(id),
    {
        match self.user_counts.get(&id) {
            Some(c) => *c,
            None => 0,
        }
    }

    /// The last greeting recorded for one identity, `None` where it never
    /// greeted.
    pub fn last_greeting(&self, id: Identity) -> (g: Option<String>)
        ensures
            g matches Some(text) ==> self@.greetings.contains_key(id) && text
                == self@.greetings[id],
            g is None ==> !self@.greetings.contains_key(id),
    {
        match self.greetings.get(&id) {
            Some(text) => Some(text.clone()),
            None => None,
        }
    }

    /// The remaining lifetime of the global tier.
    pub fn remaining_global_ttl(&self) -> (t: u32)
        ensures
            t == self@.global_ttl,
    {
        self.global_ttl
    }

    /// The remaining lifetime of a scoped entry.
    pub fn remaining_scoped_ttl(&self, key: &DataKey) -> (t: Option<u32>)
        ensures
            t == self@.scoped_ttl(*key),
    {
        match key {
            DataKey::UltimoSaludo(id) => match self.greeting_ttl.get(id) {
                Some(t) => Some(*t),
                None => None,
            },
            DataKey::ContadorPorUsuario(id) => match self.user_count_ttl.get(id) {
                Some(t) => Some(*t),
                None => None,
            },
            _ => None,
        }
    }

    /// Writes the admin singleton.
    pub fn set_admin(&mut self, id: Identity)
        ensures
            final(self)@ == (StoreView { admin: Some(id), ..old(self)@ }),
    {
        self.admin = Some(id);
    }

    /// Writes the shared greeting counter singleton.
    pub fn set_counter(&mut self, c: u32)
        ensures
            final(self)@ == (StoreView { counter: Some(c), ..old(self)@ }),
    {
        self.counter = Some(c);
    }

    /// Writes the character limit singleton.
    pub fn set_limit(&mut self, l: u32)
        ensures
            final(self)@ == (StoreView { limit: Some(l), ..old(self)@ }),
    {
        self.limit = Some(l);
    }

    /// Writes one identity's last greeting. A fresh entry starts with the
    /// default lifetime; overwriting keeps the entry's lifetime.
    pub fn set_greeting(&mut self, id: Identity, text: String)
        ensures
            final(self)@ == (StoreView {
                greetings: old(self)@.greetings.insert(id, text),
                greeting_ttl: old(self)@.greeting_ttl.insert(
                    id,
                    if old(self)@.greeting_ttl.contains_key(id) {
                        old(self)@.greeting_ttl[id]
                    } else {
                        old(self)@.default_ttl
                    },
                ),
                ..old(self)@
            }),
    {
        let ttl: u32 = match self.greeting_ttl.get(&id) {
            Some(t) => *t,
            None => self.default_ttl,
        };
        self.greeting_ttl.insert(id, ttl);
        self.greetings.insert(id, text);
    }

    /// Writes one identity's greeting counter. A fresh entry starts with the
    /// default lifetime; overwriting keeps the entry's lifetime.
    pub fn set_user_count(&mut self, id: Identity, c: u32)
        ensures
            final(self)@ == (StoreView {
                user_counts: old(self)@.user_counts.insert(id, c),
                user_count_ttl: old(self)@.user_count_ttl.insert(
                    id,
                    if old(self)@.user_count_ttl.contains_key(id) {
                        old(self)@.user_count_ttl[id]
                    } else {
                        old(self)@.default_ttl
                    },
                ),
                ..old(self)@
            }),
    {
        let ttl: u32 = match self.user_count_ttl.get(&id) {
            Some(t) => *t,
            None => self.default_ttl,
        };
        self.user_count_ttl.insert(id, ttl);
        self.user_counts.insert(id, c);
    }

    /// Renews the global tier: one call extends the lifetime of all global
    /// entries together.
    pub fn renew_global(&mut self, min: u32, max: u32)
        requires
            min <= max,
        ensures
            final(self)@ == (StoreView {
                global_ttl: renewed(old(self)@.global_ttl, min, max),
                ..old(self)@
            }),
    {
        if self.global_ttl < min {
            self.global_ttl = max;
        }
    }

    /// Renews one scoped entry, which must exist. Scoped lifetimes are
    /// independent: no other entry is touched.
    pub fn renew_scoped(&mut self, key: &DataKey, min: u32, max: u32)
        requires
            min <= max,
            old(self)@.wf(),
            old(self)@.contains(*key),
            (*key is UltimoSaludo) || (*key is ContadorPorUsuario),
        ensures
            *key matches DataKey::UltimoSaludo(id) ==> final(self)@ == (StoreView {
                greeting_ttl: old(self)@.greeting_ttl.insert(
                    id,
                    renewed(old(self)@.greeting_ttl[id], min, max),
                ),
                ..old(self)@
            }),
            *key matches DataKey::ContadorPorUsuario(id) ==> final(self)@ == (StoreView {
                user_count_ttl: old(self)@.user_count_ttl.insert(
                    id,
                    renewed(old(self)@.user_count_ttl[id], min, max),
                ),
                ..old(self)@
            }),
    {
        match key {
            DataKey::UltimoSaludo(id) => {
                let cur: u32 = match self.greeting_ttl.get(id) {
                    Some(t) => *t,
                    None => 0,
                };
                let renewed_ttl: u32 = if cur < min {
                    max
                } else {
                    cur
                };
                self.greeting_ttl.insert(*id, renewed_ttl);
            },
            DataKey::ContadorPorUsuario(id) => {
                let cur: u32 = match self.user_count_ttl.get(id) {
                    Some(t) => *t,
                    None => 0,
                };
                let renewed_ttl: u32 = if cur < min {
                    max
                } else {
                    cur
                };
                self.user_count_ttl.insert(*id, renewed_ttl);
            },
            _ => {},
        }
    }
}

} // verus!

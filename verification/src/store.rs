//! The name store: the authoritative mapping from accounts to their entries.

use vstd::prelude::*;
use std::collections::HashMap;
use crate::types::{AccountId, Balance};

verus! {

broadcast use vstd::std_specs::hash::group_hash_axioms;

/// One stored record: the name bytes and the deposit held for them.
pub struct NameEntry {
    /// The name, an opaque byte sequence stored verbatim.
    pub name: Vec<u8>,
    /// The amount reserved when this account was first named.
    pub deposit: Balance,
}

/// Persistent mapping `account -> (name, deposit)`, keyed by account
/// identifier. The registry never iterates it; only point lookup and point
/// overwrite are offered.
pub struct NameStore {
    map: HashMap<AccountId, NameEntry>,
}

impl NameStore {
    /// Whether `a` currently has an entry.
    pub closed spec fn contains(self, a: AccountId) -> bool {
        self.map@.contains_key(a)
    }

    /// The name bytes stored for `a`.
    pub closed spec fn name_of(self, a: AccountId) -> Seq<u8>
        recommends
            self.contains(a),
    {
        self.map@[a].name@
    }

    /// The deposit stored for `a`.
    pub closed spec fn deposit_of(self, a: AccountId) -> Balance
        recommends
            self.contains(a),
    {
        self.map@[a].deposit
    }

    /// Every stored name is within `max` bytes.
    pub open spec fn bounded(self, max: u32) -> bool {
        forall|a: AccountId| #[trigger] self.contains(a) ==> self.name_of(a).len() <= max
    }

    /// An empty store: no account is named.
    pub fn new() -> (s: NameStore)
        ensures
            forall|a: AccountId| !s.contains(a),
    {
        NameStore { map: HashMap::new() }
    }

    /// Point lookup; total, never fails.
    pub fn lookup(&self, a: AccountId) -> (r: Option<&NameEntry>)
        ensures
            match r {
                Some(e) => self.contains(a) && e.name@ == self.name_of(a) && e.deposit
                    == self.deposit_of(a),
                None => !self.contains(a),
            },
    {
        self.map.get(&a)
    }

    /// Unconditional overwrite of the entry at `a`; all other accounts keep
    /// their entries (or their absence) untouched.
    pub fn insert(&mut self, a: AccountId, entry: NameEntry)
        ensures
            final(self).contains(a),
            final(self).name_of(a) == entry.name@,
            final(self).deposit_of(a) == entry.deposit,
            forall|b: AccountId|
                b != a ==> #[trigger] final(self).contains(b) == old(self).contains(b),
            forall|b: AccountId|
                b != a && old(self).contains(b) ==> #[trigger] final(self).name_of(b)
                    == old(self).name_of(b),
            forall|b: AccountId|
                b != a && old(self).contains(b) ==> #[trigger] final(self).deposit_of(b)
                    == old(self).deposit_of(b),
    {
        self.map.insert(a, entry);
    }
}

} // verus!

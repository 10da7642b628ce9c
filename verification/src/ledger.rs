//! The reservable-balance ledger: per-account free and reserved balances,
//! and the `reserve` operation the deposit policy relies on.

use vstd::prelude::*;
use std::collections::HashMap;
use crate::types::{AccountId, Balance, DispatchError};

verus! {

broadcast use vstd::std_specs::hash::group_hash_axioms;

/// The two partitions of one account's balance.
pub struct AccountBalance {
    /// Freely transferable units.
    pub free: Balance,
    /// Units locked by a reservation.
    pub reserved: Balance,
}

/// Per-account balances. An account with no record holds nothing: both
/// partitions read as zero.
pub struct Ledger {
    accounts: HashMap<AccountId, AccountBalance>,
}

impl Ledger {
    /// The free balance of `a` (zero when `a` has no record).
    pub closed spec fn free_of(self, a: AccountId) -> Balance {
        if self.accounts@.contains_key(a) {
            self.accounts@[a].free
        } else {
            0
        }
    }

    /// The reserved balance of `a` (zero when `a` has no record).
    pub closed spec fn reserved_of(self, a: AccountId) -> Balance {
        if self.accounts@.contains_key(a) {
            self.accounts@[a].reserved
        } else {
            0
        }
    }

    /// An empty ledger: every account holds nothing.
    pub fn new() -> (l: Ledger)
        ensures
            forall|a: AccountId| #[trigger] l.free_of(a) == 0,
            forall|a: AccountId| #[trigger] l.reserved_of(a) == 0,
    {
        Ledger { accounts: HashMap::new() }
    }

    /// Read the free balance of `a`.
    pub fn free_balance(&self, a: AccountId) -> (r: Balance)
        ensures
            r == self.free_of(a),
    {
        match self.accounts.get(&a) {
            Some(b) => b.free,
            None => 0,
        }
    }

    /// Read the reserved balance of `a`.
    pub fn reserved_balance(&self, a: AccountId) -> (r: Balance)
        ensures
            r == self.reserved_of(a),
    {
        match self.accounts.get(&a) {
            Some(b) => b.reserved,
            None => 0,
        }
    }

    /// Set the free balance of `a`, leaving its reserved part and every other
    /// account untouched.
    pub fn set_free(&mut self, a: AccountId, amount: Balance)
        ensures
            final(self).free_of(a) == amount,
            final(self).reserved_of(a) == old(self).reserved_of(a),
            forall|b: AccountId| b != a ==> #[trigger] final(self).free_of(b) == old(self).free_of(b),
            forall|b: AccountId|
                b != a ==> #[trigger] final(self).reserved_of(b) == old(self).reserved_of(b),
    {
        let reserved: Balance = match self.accounts.get(&a) {
            Some(b) => b.reserved,
            None => 0,
        };
        self.accounts.insert(a, AccountBalance { free: amount, reserved });
    }

    /// Move `amount` from `a`'s free balance to its reserved balance; fails
    /// with `InsufficientFunds` when the free balance cannot cover it, and
    /// then changes nothing.
    pub fn reserve(&mut self, a: AccountId, amount: Balance) -> (r: Result<(), DispatchError>)
        requires
            old(self).reserved_of(a) + amount <= Balance::MAX,
        ensures
            if old(self).free_of(a) >= amount {
                &&& r is Ok
                &&& final(self).free_of(a) == old(self).free_of(a) - amount
                &&& final(self).reserved_of(a) == old(self).reserved_of(a) + amount
            } else {
                &&& r == Result::<(), DispatchError>::Err(DispatchError::InsufficientFunds)
                &&& final(self).free_of(a) == old(self).free_of(a)
                &&& final(self).reserved_of(a) == old(self).reserved_of(a)
            },
            forall|b: AccountId| b != a ==> #[trigger] final(self).free_of(b) == old(self).free_of(b),
            forall|b: AccountId|
                b != a ==> #[trigger] final(self).reserved_of(b) == old(self).reserved_of(b),
    {
        let (free, reserved): (Balance, Balance) = match self.accounts.get(&a) {
            Some(b) => (b.free, b.reserved),
            None => (0, 0),
        };
        if free >= amount {
            self.accounts.insert(a, AccountBalance { free: free - amount, reserved: reserved + amount });
            Ok(())
        } else {
            Err(DispatchError::InsufficientFunds)
        }
    }
}

} // verus!

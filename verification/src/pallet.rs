//! The call dispatcher: the registry state and its two dispatched
//! operations, `set_name` and `get_name`.

use vstd::prelude::*;
use crate::types::{AccountId, Balance, Config, DispatchError, Error, Event, EventView};
use crate::store::{NameEntry, NameStore};
use crate::ledger::Ledger;

verus! {

/// Reservations match the store, account by account: whoever is named has
/// exactly the entry's deposit reserved, and nobody else has anything
/// reserved by this registry.
pub open spec fn reservations_match(names: NameStore, ledger: Ledger) -> bool {
    forall|a: AccountId|
        #[trigger] ledger.reserved_of(a) == if names.contains(a) {
            names.deposit_of(a)
        } else {
            0
        }
}

/// The registry: configuration, the name store, the balance ledger, and the
/// log of events emitted by committed transitions.
pub struct Pallet {
    config: Config,
    names: NameStore,
    ledger: Ledger,
    events: Vec<Event>,
}

impl Pallet {
    /// The deployment-time constants.
    pub closed spec fn spec_config(self) -> Config {
        self.config
    }

    /// The name store.
    pub closed spec fn spec_names(self) -> NameStore {
        self.names
    }

    /// The balance ledger.
    pub closed spec fn spec_ledger(self) -> Ledger {
        self.ledger
    }

    /// The events emitted so far, oldest first.
    pub closed spec fn spec_events(self) -> Seq<Event> {
        self.events@
    }

    /// Whether `a` currently has an entry.
    pub open spec fn is_named(self, a: AccountId) -> bool {
        self.spec_names().contains(a)
    }

    /// The name stored for `a`.
    pub open spec fn name_of(self, a: AccountId) -> Seq<u8>
        recommends
            self.is_named(a),
    {
        self.spec_names().name_of(a)
    }

    /// The deposit stored for `a`.
    pub open spec fn deposit_of(self, a: AccountId) -> Balance
        recommends
            self.is_named(a),
    {
        self.spec_names().deposit_of(a)
    }

    /// The free balance of `a`.
    pub open spec fn free_of(self, a: AccountId) -> Balance {
        self.spec_ledger().free_of(a)
    }

    /// The balance reserved from `a` by this registry.
    pub open spec fn reserved_of(self, a: AccountId) -> Balance {
        self.spec_ledger().reserved_of(a)
    }

    /// The emitted events as their mathematical views, oldest first.
    pub open spec fn log(self) -> Seq<EventView> {
        self.spec_events().map_values(|e: Event| e@)
    }

    /// The registry's invariant: the configuration is usable, every stored
    /// name respects the length bound, and every account has exactly its
    /// entry's deposit reserved — nothing when it is unnamed.
    pub open spec fn wf(self) -> bool {
        &&& self.spec_config().wf()
        &&& self.spec_names().bounded(self.spec_config().max_length)
        &&& reservations_match(self.spec_names(), self.spec_ledger())
    }
}

/// `pre` and `post` agree on every entry of the name store.
pub open spec fn store_unchanged(pre: Pallet, post: Pallet) -> bool {
    forall|b: AccountId|
        #![trigger post.is_named(b)]
        #![trigger pre.is_named(b)]
        post.is_named(b) == pre.is_named(b) && (pre.is_named(b) ==> post.name_of(b) == pre.name_of(
            b,
        ) && post.deposit_of(b) == pre.deposit_of(b))
}

/// `pre` and `post` agree on the name store everywhere but (possibly) at `who`.
pub open spec fn store_unchanged_except(pre: Pallet, post: Pallet, who: AccountId) -> bool {
    forall|b: AccountId|
        #![trigger post.is_named(b)]
        #![trigger pre.is_named(b)]
        b != who ==> post.is_named(b) == pre.is_named(b) && (pre.is_named(b) ==> post.name_of(b)
            == pre.name_of(b) && post.deposit_of(b) == pre.deposit_of(b))
}

/// `pre` and `post` agree on every account's balances.
pub open spec fn balances_unchanged(pre: Pallet, post: Pallet) -> bool {
    forall|b: AccountId|
        #![trigger post.free_of(b)]
        #![trigger pre.free_of(b)]
        post.free_of(b) == pre.free_of(b) && post.reserved_of(b) == pre.reserved_of(b)
}

/// `pre` and `post` agree on balances everywhere but (possibly) at `who`.
pub open spec fn balances_unchanged_except(pre: Pallet, post: Pallet, who: AccountId) -> bool {
    forall|b: AccountId|
        #![trigger post.free_of(b)]
        #![trigger pre.free_of(b)]
        b != who ==> post.free_of(b) == pre.free_of(b) && post.reserved_of(b) == pre.reserved_of(b)
}

/// Nothing observable changed: same configuration, same store, same
/// balances, and not one new event.
pub open spec fn unchanged(pre: Pallet, post: Pallet) -> bool {
    &&& post.spec_config() == pre.spec_config()
    &&& store_unchanged(pre, post)
    &&& balances_unchanged(pre, post)
    &&& post.log() == pre.log()
}

/// Exactly how `set_name(who, n)` transforms the registry and what it
/// returns, for every input.
pub open spec fn set_name_spec(
    pre: Pallet,
    post: Pallet,
    who: AccountId,
    n: Seq<u8>,
    r: Result<(), DispatchError>,
) -> bool {
    let fee = pre.spec_config().reservation_fee;
    if n.len() > pre.spec_config().max_length {
        &&& r == Result::<(), DispatchError>::Err(DispatchError::Module(Error::TooLong))
        &&& unchanged(pre, post)
    } else if pre.is_named(who) {
        &&& r is Ok
        &&& post.spec_config() == pre.spec_config()
        &&& post.is_named(who)
        &&& post.name_of(who) == n
        &&& post.deposit_of(who) == pre.deposit_of(who)
        &&& store_unchanged_except(pre, post, who)
        &&& balances_unchanged(pre, post)
        &&& post.log() == pre.log().push(EventView::NameChanged { who })
    } else if pre.free_of(who) >= fee {
        &&& r is Ok
        &&& post.spec_config() == pre.spec_config()
        &&& post.is_named(who)
        &&& post.name_of(who) == n
        &&& post.deposit_of(who) == fee
        &&& store_unchanged_except(pre, post, who)
        &&& post.free_of(who) == pre.free_of(who) - fee
        &&& post.reserved_of(who) == pre.reserved_of(who) + fee
        &&& balances_unchanged_except(pre, post, who)
        &&& post.log() == pre.log().push(EventView::NameSet { who })
    } else {
        &&& r == Result::<(), DispatchError>::Err(DispatchError::InsufficientFunds)
        &&& unchanged(pre, post)
    }
}

/// Exactly how `get_name(who)` transforms the registry and what it returns.
pub open spec fn get_name_spec(
    pre: Pallet,
    post: Pallet,
    who: AccountId,
    r: Result<(), DispatchError>,
) -> bool {
    if pre.is_named(who) {
        &&& r is Ok
        &&& post.spec_config() == pre.spec_config()
        &&& store_unchanged(pre, post)
        &&& balances_unchanged(pre, post)
        &&& post.log() == pre.log().push(EventView::NameQueried { who, name: pre.name_of(who) })
    } else {
        &&& r == Result::<(), DispatchError>::Err(DispatchError::Module(Error::Unnamed))
        &&& unchanged(pre, post)
    }
}

impl Pallet {
    /// A fresh registry under `config`: nobody is named, nobody holds any
    /// balance, and no event has been emitted.
    pub fn new(config: Config) -> (p: Pallet)
        requires
            config.wf(),
        ensures
            p.wf(),
            p.spec_config() == config,
            forall|a: AccountId| !#[trigger] p.is_named(a),
            forall|a: AccountId| #[trigger] p.free_of(a) == 0 && p.reserved_of(a) == 0,
            p.log() == Seq::<EventView>::empty(),
    {
        let p = Pallet {
            config,
            names: NameStore::new(),
            ledger: Ledger::new(),
            events: Vec::new(),
        };
        proof {
            assert(p.log() =~= Seq::<EventView>::empty());
        }
        p
    }

    /// Set or replace the caller's name.
    ///
    /// Rejects names longer than the configured bound with `TooLong`. A first
    /// naming reserves the configured fee from the caller's free balance and
    /// emits `NameSet`; when the free balance cannot cover the fee, the call
    /// fails with `InsufficientFunds` and changes nothing. A rename keeps the
    /// original deposit untouched and emits `NameChanged`. The name bytes are
    /// stored verbatim.
    pub fn set_name(&mut self, who: AccountId, name: Vec<u8>) -> (r: Result<(), DispatchError>)
        requires
            old(self).wf(),
        ensures
            final(self).wf(),
            set_name_spec(*old(self), *final(self), who, name@, r),
    {
        if name.len() > self.config.max_length as usize {
            return Err(DispatchError::Module(Error::TooLong));
        }
        let existing: Option<Balance> = match self.names.lookup(who) {
            Some(e) => Some(e.deposit),
            None => None,
        };
        let deposit: Balance = match existing {
            Some(d) => {
                self.events.push(Event::NameChanged { who });
                proof {
                    assert(self.log() =~= old(self).log().push(EventView::NameChanged { who }));
                }
                d
            },
            None => {
                let d = self.config.reservation_fee;
                assert(old(self).reserved_of(who) == 0);
                match self.ledger.reserve(who, d) {
                    Ok(_) => {},
                    Err(e) => {
                        return Err(e);
                    },
                }
                self.events.push(Event::NameSet { who });
                proof {
                    assert(self.log() =~= old(self).log().push(EventView::NameSet { who }));
                }
                d
            },
        };
        self.names.insert(who, NameEntry { name, deposit });
        Ok(())
    }

    /// Publish the caller's current name through a `NameQueried` event.
    ///
    /// Fails with `Unnamed` (and emits nothing) when the caller has no entry.
    /// The store and all balances are left untouched either way.
    pub fn get_name(&mut self, who: AccountId) -> (r: Result<(), DispatchError>)
        requires
            old(self).wf(),
        ensures
            final(self).wf(),
            get_name_spec(*old(self), *final(self), who, r),
    {
        let name: Vec<u8> = match self.names.lookup(who) {
            Some(e) => copy_bytes(&e.name),
            None => {
                return Err(DispatchError::Module(Error::Unnamed));
            },
        };
        self.events.push(Event::NameQueried { who, name });
        proof {
            assert(self.log() =~= old(self).log().push(
                EventView::NameQueried { who, name: old(self).name_of(who) },
            ));
        }
        Ok(())
    }

    /// Direct read access to the caller's entry: the stored name and deposit,
    /// or `None` when the account is unnamed. Emits nothing.
    pub fn lookup(&self, who: AccountId) -> (r: Option<(Vec<u8>, Balance)>)
        ensures
            match r {
                Some(p) => self.is_named(who) && p.0@ == self.name_of(who) && p.1
                    == self.deposit_of(who),
                None => !self.is_named(who),
            },
    {
        match self.names.lookup(who) {
            Some(e) => Some((copy_bytes(&e.name), e.deposit)),
            None => None,
        }
    }

    /// Set the free balance of `who` (endowment by the host); reservations
    /// and the name store are untouched.
    pub fn set_free_balance(&mut self, who: AccountId, amount: Balance)
        requires
            old(self).wf(),
        ensures
            final(self).wf(),
            final(self).spec_config() == old(self).spec_config(),
            final(self).free_of(who) == amount,
            final(self).reserved_of(who) == old(self).reserved_of(who),
            store_unchanged(*old(self), *final(self)),
            balances_unchanged_except(*old(self), *final(self), who),
            final(self).log() == old(self).log(),
    {
        self.ledger.set_free(who, amount);
    }

    /// Read the free balance of `who`.
    pub fn free_balance(&self, who: AccountId) -> (r: Balance)
        ensures
            r == self.free_of(who),
    {
        self.ledger.free_balance(who)
    }

    /// Read the balance reserved from `who` by this registry.
    pub fn reserved_balance(&self, who: AccountId) -> (r: Balance)
        ensures
            r == self.reserved_of(who),
    {
        self.ledger.reserved_balance(who)
    }

    /// The deployment-time constants this registry runs under.
    pub fn config(&self) -> (r: Config)
        ensures
            r == self.spec_config(),
    {
        self.config
    }

    /// The events emitted so far, oldest first.
    pub fn events(&self) -> (r: &Vec<Event>)
        ensures
            r@.len() == self.log().len(),
            forall|i: int| 0 <= i < r@.len() ==> #[trigger] r@[i]@ == self.log()[i],
    {
        &self.events
    }
}

/// A verbatim copy of a byte vector.
fn copy_bytes(src: &Vec<u8>) -> (r: Vec<u8>)
    ensures
        r@ == src@,
{
    let mut r: Vec<u8> = Vec::new();
    let mut i: usize = 0;
    while i < src.len()
        invariant
            i <= src.len(),
            r@ == src@.subrange(0, i as int),
        decreases src.len() - i,
    {
        r.push(src[i]);
        proof {
            assert(r@ =~= src@.subrange(0, i + 1 as int));
        }
        i = i + 1;
    }
    proof {
        assert(r@ =~= src@);
    }
    r
}

} // verus!

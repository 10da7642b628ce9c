//! Laws of the registry: properties that relate whole transitions, proved
//! once and for all over the transition relations of `pallet`.

use vstd::prelude::*;
use crate::types::{AccountId, DispatchError, Error, EventView};
use crate::pallet::{Pallet, get_name_spec, set_name_spec, unchanged};

verus! {

/// Any `set_name` transition preserves the registry invariant: stored names
/// stay bounded and reservations keep matching the stored deposits.
pub proof fn lemma_set_name_preserves_wf(
    pre: Pallet,
    post: Pallet,
    who: AccountId,
    n: Seq<u8>,
    r: Result<(), DispatchError>,
)
    requires
        pre.wf(),
        set_name_spec(pre, post, who, n, r),
    ensures
        post.wf(),
{
    assert forall|a: AccountId| #[trigger] post.spec_names().contains(a) implies post.spec_names()
        .name_of(a).len() <= post.spec_config().max_length by {
        if a != who {
            assert(pre.is_named(a) ==> pre.name_of(a).len() <= pre.spec_config().max_length);
        }
    }
    assert forall|a: AccountId| #[trigger] post.spec_ledger().reserved_of(a) == (
    if post.spec_names().contains(a) {
        post.spec_names().deposit_of(a)
    } else {
        0
    }) by {
        assert(pre.spec_ledger().reserved_of(a) == (if pre.spec_names().contains(a) {
            pre.spec_names().deposit_of(a)
        } else {
            0
        }));
        if a != who {
            assert(post.is_named(a) == pre.is_named(a));
            assert(post.free_of(a) == pre.free_of(a));
        }
    }
}

/// Any `get_name` transition preserves the registry invariant.
pub proof fn lemma_get_name_preserves_wf(
    pre: Pallet,
    post: Pallet,
    who: AccountId,
    r: Result<(), DispatchError>,
)
    requires
        pre.wf(),
        get_name_spec(pre, post, who, r),
    ensures
        post.wf(),
{
    assert forall|a: AccountId| #[trigger] post.spec_names().contains(a) implies post.spec_names()
        .name_of(a).len() <= post.spec_config().max_length by {
        assert(pre.is_named(a) ==> pre.name_of(a).len() <= pre.spec_config().max_length);
    }
    assert forall|a: AccountId| #[trigger] post.spec_ledger().reserved_of(a) == (
    if post.spec_names().contains(a) {
        post.spec_names().deposit_of(a)
    } else {
        0
    }) by {
        assert(pre.spec_ledger().reserved_of(a) == (if pre.spec_names().contains(a) {
            pre.spec_names().deposit_of(a)
        } else {
            0
        }));
        assert(post.is_named(a) == pre.is_named(a));
        assert(post.free_of(a) == pre.free_of(a));
    }
}

/// A successful `set_name(who, n)` stores exactly `n` for `who`.
pub proof fn lemma_set_name_stores_name(
    pre: Pallet,
    post: Pallet,
    who: AccountId,
    n: Seq<u8>,
    r: Result<(), DispatchError>,
)
    requires
        n.len() <= pre.spec_config().max_length,
        set_name_spec(pre, post, who, n, r),
        r is Ok,
    ensures
        post.is_named(who),
        post.name_of(who) == n,
{
}

/// A name beyond the configured bound is rejected with `TooLong`, and the
/// transition changes nothing: no entry, no balance, no event.
pub proof fn lemma_too_long_rejected(
    pre: Pallet,
    post: Pallet,
    who: AccountId,
    n: Seq<u8>,
    r: Result<(), DispatchError>,
)
    requires
        n.len() > pre.spec_config().max_length,
        set_name_spec(pre, post, who, n, r),
    ensures
        r == Result::<(), DispatchError>::Err(DispatchError::Module(Error::TooLong)),
        unchanged(pre, post),
{
}

/// A first naming by an account whose free balance covers the fee succeeds
/// and moves exactly the fee from free to reserved; nothing was reserved for
/// that account before.
pub proof fn lemma_first_naming_moves_fee(
    pre: Pallet,
    post: Pallet,
    who: AccountId,
    n: Seq<u8>,
    r: Result<(), DispatchError>,
)
    requires
        pre.wf(),
        !pre.is_named(who),
        pre.free_of(who) >= pre.spec_config().reservation_fee,
        n.len() <= pre.spec_config().max_length,
        set_name_spec(pre, post, who, n, r),
    ensures
        r is Ok,
        pre.reserved_of(who) == 0,
        post.free_of(who) == pre.free_of(who) - pre.spec_config().reservation_fee,
        post.reserved_of(who) == pre.reserved_of(who) + pre.spec_config().reservation_fee,
        post.reserved_of(who) == pre.spec_config().reservation_fee,
{
    assert(pre.spec_ledger().reserved_of(who) == 0);
}

/// A first naming without the funds for the fee fails with
/// `InsufficientFunds`, and the transition changes nothing.
pub proof fn lemma_insufficient_funds_rejected(
    pre: Pallet,
    post: Pallet,
    who: AccountId,
    n: Seq<u8>,
    r: Result<(), DispatchError>,
)
    requires
        !pre.is_named(who),
        pre.free_of(who) < pre.spec_config().reservation_fee,
        n.len() <= pre.spec_config().max_length,
        set_name_spec(pre, post, who, n, r),
    ensures
        r == Result::<(), DispatchError>::Err(DispatchError::InsufficientFunds),
        unchanged(pre, post),
{
}

/// `get_name` for an unnamed account fails with `Unnamed`, and the
/// transition changes nothing — in particular, no event is emitted.
pub proof fn lemma_get_name_unnamed(
    pre: Pallet,
    post: Pallet,
    who: AccountId,
    r: Result<(), DispatchError>,
)
    requires
        !pre.is_named(who),
        get_name_spec(pre, post, who, r),
    ensures
        r == Result::<(), DispatchError>::Err(DispatchError::Module(Error::Unnamed)),
        unchanged(pre, post),
{
}

/// Each step of the chain is a successful `set_name(who, names[i])` taking
/// `states[i]` to `states[i + 1]`.
pub open spec fn rename_chain(states: Seq<Pallet>, who: AccountId, names: Seq<Seq<u8>>) -> bool {
    &&& states.len() == names.len() + 1
    &&& forall|i: int|
        0 <= i < names.len() ==> #[trigger] set_name_spec(
            states[i],
            states[i + 1],
            who,
            names[i],
            Result::<(), DispatchError>::Ok(()),
        )
}

/// Deposit stability along one chain position: once `who` is named with some
/// deposit, every later successful `set_name` keeps both the stored deposit
/// and the reserved balance at that original value.
pub proof fn lemma_deposit_stable_at(
    states: Seq<Pallet>,
    who: AccountId,
    names: Seq<Seq<u8>>,
    i: int,
)
    requires
        rename_chain(states, who, names),
        states[0].wf(),
        states[0].is_named(who),
        0 <= i < states.len(),
    ensures
        states[i].wf(),
        states[i].is_named(who),
        states[i].deposit_of(who) == states[0].deposit_of(who),
        states[i].reserved_of(who) == states[0].deposit_of(who),
    decreases i,
{
    if i == 0 {
        assert(states[0].spec_ledger().reserved_of(who) == states[0].spec_names().deposit_of(who));
    } else {
        let j = i - 1;
        lemma_deposit_stable_at(states, who, names, j);
        assert(set_name_spec(
            states[j],
            states[j + 1],
            who,
            names[j],
            Result::<(), DispatchError>::Ok(()),
        ));
        lemma_set_name_preserves_wf(
            states[j],
            states[j + 1],
            who,
            names[j],
            Result::<(), DispatchError>::Ok(()),
        );
        assert(states[j + 1] == states[i]);
        assert(states[i].spec_ledger().reserved_of(who) == states[i].spec_names().deposit_of(who));
    }
}

/// Deposit stability, whole chain: the deposit of `who` and the balance
/// reserved for it stay at their original value throughout any number of
/// successful renames.
pub proof fn lemma_deposit_stable(states: Seq<Pallet>, who: AccountId, names: Seq<Seq<u8>>)
    requires
        rename_chain(states, who, names),
        states[0].wf(),
        states[0].is_named(who),
    ensures
        forall|i: int|
            0 <= i < states.len() ==> #[trigger] states[i].deposit_of(who) == states[
                0
            ].deposit_of(who),
        forall|i: int|
            0 <= i < states.len() ==> #[trigger] states[i].reserved_of(who) == states[
                0
            ].deposit_of(who),
{
    assert forall|i: int|
        0 <= i < states.len() implies #[trigger] states[i].deposit_of(who) == states[0].deposit_of(
        who,
    ) by {
        lemma_deposit_stable_at(states, who, names, i);
    }
    assert forall|i: int|
        0 <= i < states.len() implies #[trigger] states[i].reserved_of(who) == states[
        0
    ].deposit_of(who) by {
        lemma_deposit_stable_at(states, who, names, i);
    }
}

/// Round trip: a successful `set_name(who, n)` followed by `get_name(who)`
/// appends exactly two events — `NameSet` (or `NameChanged` if `who` was
/// already named) and then `NameQueried` carrying `n` itself.
pub proof fn lemma_round_trip(
    s0: Pallet,
    s1: Pallet,
    s2: Pallet,
    who: AccountId,
    n: Seq<u8>,
    r1: Result<(), DispatchError>,
    r2: Result<(), DispatchError>,
)
    requires
        s0.wf(),
        n.len() <= s0.spec_config().max_length,
        set_name_spec(s0, s1, who, n, r1),
        r1 is Ok,
        get_name_spec(s1, s2, who, r2),
    ensures
        r2 is Ok,
        s2.log() == s0.log().push(
            if s0.is_named(who) {
                EventView::NameChanged { who }
            } else {
                EventView::NameSet { who }
            },
        ).push(EventView::NameQueried { who, name: n }),
{
}

} // verus!

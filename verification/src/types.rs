//! Plain data carried through the registry: identifiers, configuration,
//! errors, and events.

use vstd::prelude::*;

verus! {

/// Host-assigned account identifier. The registry relies only on equality.
pub type AccountId = u64;

/// Units of the host currency; non-negative by construction.
pub type Balance = u64;

/// Deployment-time constants of the registry.
#[derive(Clone, Copy, PartialEq, Eq, Structural, Debug)]
pub struct Config {
    /// Inclusive upper bound on the byte length of a stored name.
    pub max_length: u32,
    /// Amount reserved from an account's free balance on first naming.
    pub reservation_fee: Balance,
}

impl Config {
    /// A usable configuration: the length bound is positive.
    pub open spec fn wf(self) -> bool {
        self.max_length > 0
    }
}

/// Failures the registry reports to callers.
#[derive(Clone, Copy, PartialEq, Eq, Structural, Debug)]
pub enum Error {
    /// Reserved for a future minimum-length rule; no operation raises it.
    TooShort,
    /// The proposed name is longer than `Config::max_length`.
    TooLong,
    /// `get_name` was called for an account that has no entry.
    Unnamed,
}

/// What a dispatched operation returns on failure: one of the registry's own
/// errors, or a failure propagated from the balance ledger.
#[derive(Clone, Copy, PartialEq, Eq, Structural, Debug)]
pub enum DispatchError {
    /// An error of the registry's own taxonomy.
    Module(Error),
    /// The account's free balance could not cover the requested reservation.
    InsufficientFunds,
}

/// Observation records appended by committed transitions.
#[derive(PartialEq, Eq, Debug)]
pub enum Event {
    /// A first-time naming completed; the reservation was just taken.
    NameSet { who: AccountId },
    /// A rename completed; the reservation is unchanged.
    NameChanged { who: AccountId },
    /// A read operation published the current name.
    NameQueried { who: AccountId, name: Vec<u8> },
}

/// The mathematical shape of an event: the name as a byte sequence.
pub enum EventView {
    NameSet { who: AccountId },
    NameChanged { who: AccountId },
    NameQueried { who: AccountId, name: Seq<u8> },
}

impl View for Event {
    type V = EventView;

    open spec fn view(&self) -> EventView {
        match self {
            Event::NameSet { who } => EventView::NameSet { who: *who },
            Event::NameChanged { who } => EventView::NameChanged { who: *who },
            Event::NameQueried { who, name } => EventView::NameQueried {
                who: *who,
                name: name@,
            },
        }
    }
}

} // verus!

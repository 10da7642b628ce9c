//! A verified nickname registry.
//!
//! Accounts claim a human-readable name (an opaque byte sequence of bounded
//! length) by posting a deposit that stays reserved for as long as the entry
//! exists. The registry keeps one entry per account, reuses the original
//! deposit on every rename, and publishes its activity through an event log.
//!
//! The host runtime that authenticates callers and commits transitions is out
//! of scope; the registry itself is modelled and verified here: the name
//! store, the reservable-balance ledger, and the two dispatched operations
//! `set_name` and `get_name`.

pub mod types;
pub mod store;
pub mod ledger;
pub mod pallet;
pub mod laws;

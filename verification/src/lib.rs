//! The engine of a proof-of-work mining client: a nonce search against a
//! difficulty target, the message protocol of the worker that runs the search,
//! the controller that gates and starts a mining session, and the protocol that
//! submits a solution to the ledger under contention and epoch rollover.
//!
//! Everything here is a function of plain values. Ledger reads and writes, the
//! worker's transport and user-interface hooks belong to the caller, which feeds
//! their outcomes to the state machines of this crate as events.

pub mod digest;
pub mod search;
pub mod session;
pub mod submit;
pub mod worker;

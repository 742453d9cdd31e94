//! A payment router: it takes a platform fee out of each payment, sends the rest to the recipient,
//! and keeps the limits, discounts and blacklist that its admin and its users live under.
//!
//! The library decides; it touches no ledger. A contract call is worked out in an
//! [`Invocation`](ledger::Invocation), which holds what the contract's instance storage holds and
//! collects, in order, the [`HostCall`](ledger::HostCall)s that the ledger host has to carry out.

pub mod address;
pub mod batch;
pub mod fees;
pub mod laws;
pub mod ledger;
pub mod limits;
pub mod router;
pub mod routing;
pub mod types;

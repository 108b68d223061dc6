//! The transitions of the protocol. Each takes the records it touches in a
//! context of its own, checks its preconditions in a fixed order, and either
//! changes the records or leaves them exactly as they were.

pub mod close;
pub mod escrow;
pub mod invoice;
pub mod org;
pub mod payments;
pub mod vendor;
pub mod vrf;

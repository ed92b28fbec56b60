//! A read-through cache layer in front of a slower backing store: the entry
//! model of a fixed-capacity container, cache keys, an in-process store with
//! conditional writes and lock markers, a membership filter, and the decisions
//! of the stampede and penetration guards and of write-path invalidation.

pub mod bounded;
pub mod contention;
pub mod entry;
pub mod filter;
pub mod keys;
pub mod penetration;
pub mod plan;
pub mod stampede;
pub mod store;

//! Verified registries for miner identities and storage-power claims.
//!
//! The crate models a replicated-ledger module in which every state
//! transition is a deterministic function of the current state, the
//! operation and the current logical time.  The `miner` module holds the
//! per-miner identity records and their authorization-gated transitions;
//! the `power` module holds per-miner storage-power claims and the global
//! aggregates; the `codec` module derives ledger identities from
//! sequential miner indices and recovers them.

pub mod access;
pub mod allocator;
pub mod codec;
pub mod error;
pub mod identifier;
pub mod miner;
pub mod power;
pub mod store;

//! Storage layer for a synchronization service.
//!
//! Each client owns an append-only chain of incremental change records
//! ("versions"), anchored periodically by compaction checkpoints
//! ("snapshots").  The [`storage`] module states the storage contract —
//! the operations any backend must implement, together with the abstract
//! state they act on — and the [`inmemory`] module provides the reference
//! in-memory backend, verified against that contract.  The [`laws`]
//! module proves the properties that the contract guarantees to callers.

pub mod inmemory;
pub mod laws;
pub mod storage;

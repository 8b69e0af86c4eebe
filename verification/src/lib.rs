//! Block-production core of a blockchain node.
//!
//! This library assembles candidate blocks: it pulls pending transactions
//! from a pool, executes them deterministically against a staged copy of
//! the chain state, and hands the caller an *uncommitted* result that a
//! higher-level consensus process may commit to the block database or
//! discard without a trace.  Production waits until synchronization with
//! the external data-availability (DA) layer has reached the required
//! height, through a relayer adapter that is either enabled (tracking a
//! finalized DA height) or disabled (frozen at height zero).

pub mod database;
pub mod engine;
pub mod executor;
pub mod laws;
pub mod producer;
pub mod relayer;
pub mod txpool;
pub mod types;

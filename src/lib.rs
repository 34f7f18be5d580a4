//! Batch digest pipeline of a mempool node: content addressing of worker
//! batches, the framing of the messages that announce them, the per-batch
//! decisions of the digest processor and the materialization of ordered
//! batches into output records.
use vstd::prelude::*;

pub mod digest;
pub mod framing;
pub mod materializer;
pub mod node;
pub mod processor;

verus! {

/// Capacity of every bounded channel between the node's components.
pub const CHANNEL_CAPACITY: usize = 1000;

} // verus!

//! The configuration that a benchmark run was started with.

use vstd::prelude::*;
use crate::benchmark_kind::BenchmarkKind;

verus! {

/// The parameters of one run. A count of zero for producers, consumers,
/// partitions or consumer groups means that the run has none, and a summary
/// leaves the count out.
#[derive(Clone, Copy, Debug, PartialEq, Eq, Structural)]
pub struct BenchmarkParams {
    pub benchmark_kind: BenchmarkKind,
    pub producers: u32,
    pub consumers: u32,
    pub streams: u32,
    pub partitions: u32,
    pub consumer_groups: u32,
    pub messages_per_batch: u32,
    /// The number of batches that each actor was configured to handle.
    pub message_batches: u64,
    /// The size of one message in bytes.
    pub message_size: u32,
}

} // verus!

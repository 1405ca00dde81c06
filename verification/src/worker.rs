//! What one worker owns, what it is configured with, and what it hands to
//! and gets back from the remote service.

use vstd::prelude::*;
use crate::resource::{ResourceChange, TrackedResource};
use crate::tracker::ResourceTracker;

verus! {

/// The largest batch in large-payload mode.
pub const LARGE_PAYLOAD_BATCH: usize = 20;

/// Nanoseconds in a second.
pub const NANOS_PER_SECOND: u128 = 1_000_000_000;

/// Nanoseconds in a millisecond.
pub const NANOS_PER_MILLI: u128 = 1_000_000;

/// The options of a run that shape a worker's operations.
#[derive(Clone, Copy, Debug, PartialEq, Eq, Structural)]
pub struct WorkerConfig {
    /// Operations per batch.
    pub batch_size: usize,
    /// Share of batches that create, in percent.
    pub create_percent: u8,
    /// Whether the batches carry large payloads.
    pub large_payload: bool,
    /// Batches per second to aim for, over all workers; zero for no limit.
    pub target_tps: u64,
    /// Number of workers in the run.
    pub worker_count: usize,
}

/// The owning principal of a worker, in its portable encodings.
#[derive(Clone, Debug, PartialEq, Eq)]
pub struct WorkerIdentity {
    pub address: String,
    pub credential: String,
}

/// One batch to submit.
#[derive(Clone, Debug, PartialEq, Eq)]
pub enum Operation {
    /// Create `count` resources.
    Create { count: usize },
    /// Update each resource of `batch` once.
    Update { batch: Vec<TrackedResource> },
}

/// What came of a submitted batch.
#[derive(Clone, Debug, PartialEq, Eq)]
pub enum BatchOutcome {
    /// The remote service accepted the batch: the fee handle as it is
    /// now, and the effects reported.
    Accepted { fee: TrackedResource, changes: Vec<ResourceChange> },
    /// The batch was rejected or could not be delivered.
    Failed,
}

#[derive(Clone, Debug)]
pub struct WorkerState {
    pub id: usize,
    pub identity: WorkerIdentity,
    /// The resource that pays for submissions, as of the last one.
    pub fee: TrackedResource,
    pub tracker: ResourceTracker,
}

/// The size of a batch under `config`: the configured size, held to
/// `LARGE_PAYLOAD_BATCH` in large-payload mode.
pub open spec fn effective_batch(config: WorkerConfig) -> nat {
    if config.large_payload && config.batch_size > LARGE_PAYLOAD_BATCH {
        LARGE_PAYLOAD_BATCH as nat
    } else {
        config.batch_size as nat
    }
}

/// The pause after each batch that keeps `worker_count` workers together
/// at `target_tps` batches per second, in nanoseconds, rounded down.
pub open spec fn pacing_of(config: WorkerConfig) -> nat {
    if config.target_tps == 0 {
        0
    } else {
        (config.worker_count * NANOS_PER_SECOND / (config.target_tps as int)) as nat
    }
}

impl WorkerConfig {
    pub fn batch(&self) -> (n: usize)
        ensures
            n == effective_batch(*self),
    {
        if self.large_payload && self.batch_size > LARGE_PAYLOAD_BATCH {
            LARGE_PAYLOAD_BATCH
        } else {
            self.batch_size
        }
    }

    pub fn pacing_ns(&self) -> (pause: u128)
        ensures
            pause == pacing_of(*self),
            pause <= 0xffff_ffff_ffff_ffff * NANOS_PER_SECOND,
    {
        if self.target_tps == 0 {
            return 0;
        }
        assert(self.worker_count * NANOS_PER_SECOND <= 0xffff_ffff_ffff_ffff * NANOS_PER_SECOND)
            by (nonlinear_arith)
            requires
                self.worker_count <= 0xffff_ffff_ffff_ffff,
        ;
        let spread: u128 = (self.worker_count as u128) * NANOS_PER_SECOND;
        let pause: u128 = spread / (self.target_tps as u128);
        assert(pause <= spread) by (nonlinear_arith)
            requires
                pause == spread / (self.target_tps as u128),
                self.target_tps > 0,
        ;
        pause
    }
}

impl WorkerState {
    pub open spec fn wf(&self) -> bool {
        self.tracker.wf()
    }

    /// A worker that tracks nothing yet.
    pub fn new(id: usize, identity: WorkerIdentity, fee: TrackedResource, cap: usize) -> (w: Self)
        ensures
            w.wf(),
            w.id == id,
            w.identity == identity,
            w.fee == fee,
            w.tracker@ == Seq::<TrackedResource>::empty(),
            w.tracker.spec_cap() == cap,
    {
        WorkerState { id, identity, fee, tracker: ResourceTracker::new(cap) }
    }
}

} // verus!

//! Seeding a fresh worker with resources before the run, batch by batch.

use vstd::prelude::*;
use crate::tracker::capped;
use crate::tracker::effects::created_in;
use crate::worker::{BatchOutcome, WorkerState};

verus! {

/// Seed resources are created in batches of at most this many.
pub const SEED_BATCH: usize = 100;

/// A batch of seed resources did not get through.
#[derive(Clone, Copy, Debug, PartialEq, Eq, Structural)]
pub enum SeedError {
    SubmissionFailed,
}

/// How many seed resources are still to be asked for.
#[derive(Clone, Copy, Debug)]
pub struct SeedPlan {
    remaining: usize,
}

/// The size of the next batch when `remaining` resources are still to be asked for.
pub open spec fn next_seed_batch(remaining: nat) -> nat {
    if remaining <= SEED_BATCH {
        remaining
    } else {
        SEED_BATCH as nat
    }
}

/// The number of batches it takes to ask for `count` resources.
pub open spec fn seed_batches(count: nat) -> nat {
    (count + SEED_BATCH - 1) as nat / (SEED_BATCH as nat)
}

impl SeedPlan {
    pub closed spec fn remaining(&self) -> nat {
        self.remaining as nat
    }

    pub fn new(count: usize) -> (p: Self)
        ensures
            p.remaining() == count,
    {
        SeedPlan { remaining: count }
    }

    pub fn is_done(&self) -> (b: bool)
        ensures
            b == (self.remaining() == 0),
    {
        self.remaining == 0
    }

    /// The size of the batch to submit next, or `None` once every seed
    /// resource has been asked for.
    pub fn next_batch(&mut self) -> (batch: Option<usize>)
        ensures
            old(self).remaining() == 0 ==> batch is None && final(self).remaining() == 0,
            old(self).remaining() > 0 ==> batch == Some(
                next_seed_batch(old(self).remaining()) as usize,
            ) && final(self).remaining() == old(self).remaining() - next_seed_batch(
                old(self).remaining(),
            ),
            seed_batches(final(self).remaining()) == (if old(self).remaining() == 0 {
                0
            } else {
                seed_batches(old(self).remaining()) - 1
            }),
    {
        if self.remaining == 0 {
            return None;
        }
        let batch: usize = if self.remaining <= SEED_BATCH {
            self.remaining
        } else {
            SEED_BATCH
        };
        self.remaining = self.remaining - batch;
        Some(batch)
    }
}

/// Takes over what a seed batch brought: the fee handle as it is now and
/// the created resources, as far as the cap allows. The result is the
/// number of resources reported as created. A failed batch changes
/// nothing and ends the seeding.
pub fn apply_seed_outcome(worker: &mut WorkerState, outcome: &BatchOutcome) -> (r: Result<
    u64,
    SeedError,
>)
    requires
        old(worker).wf(),
    ensures
        final(worker).wf(),
        final(worker).id == old(worker).id,
        final(worker).identity == old(worker).identity,
        final(worker).tracker.spec_cap() == old(worker).tracker.spec_cap(),
        match *outcome {
            BatchOutcome::Accepted { fee, changes } => {
                &&& r == Ok::<u64, SeedError>(created_in(changes@).len() as u64)
                &&& final(worker).fee == fee
                &&& final(worker).tracker@ == capped(
                    old(worker).tracker@ + created_in(changes@),
                    old(worker).tracker.spec_cap(),
                )
            },
            BatchOutcome::Failed => {
                &&& r == Err::<u64, SeedError>(SeedError::SubmissionFailed)
                &&& final(worker).fee == old(worker).fee
                &&& final(worker).tracker@ == old(worker).tracker@
            },
        },
{
    match outcome {
        BatchOutcome::Accepted { fee, changes } => {
            worker.fee = *fee;
            let created: u64 = worker.tracker.apply_create_results(changes);
            Ok(created)
        },
        BatchOutcome::Failed => Err(SeedError::SubmissionFailed),
    }
}

} // verus!

//! Checkpoints: what is kept of each worker between two runs, so that a
//! later run can go on with the resources an earlier one owns.

use vstd::prelude::*;
use crate::resource::TrackedResource;
use crate::tracker::{capped, ResourceTracker};
use crate::worker::{WorkerIdentity, WorkerState};

verus! {

/// One worker as it is kept between runs.
#[derive(Clone, Debug, PartialEq, Eq)]
pub struct CheckpointRecord {
    pub worker_id: usize,
    pub identity: WorkerIdentity,
    pub resources: Vec<TrackedResource>,
}

/// All workers of a run as they are kept, with the number of resources
/// they track together.
#[derive(Clone, Debug, PartialEq, Eq)]
pub struct Checkpoint {
    pub total_resources: u128,
    pub workers: Vec<CheckpointRecord>,
}

/// Whether `record` holds the id, the identity and exactly the tracked
/// resources of `worker`.
pub open spec fn keeps(record: &CheckpointRecord, worker: &WorkerState) -> bool {
    &&& record.worker_id == worker.id
    &&& record.identity == worker.identity
    &&& record.resources@ == worker.tracker@
}

/// The number of resources in `records` together.
pub open spec fn total_tracked(records: Seq<CheckpointRecord>) -> nat
    decreases records.len(),
{
    if records.len() == 0 {
        0
    } else {
        total_tracked(records.drop_last()) + records.last().resources@.len()
    }
}

/// What is kept of `worker`.
pub fn save_worker(worker: &WorkerState) -> (record: CheckpointRecord)
    ensures
        keeps(&record, worker),
{
    CheckpointRecord {
        worker_id: worker.id,
        identity: WorkerIdentity {
            address: worker.identity.address.clone(),
            credential: worker.identity.credential.clone(),
        },
        resources: worker.tracker.resources(),
    }
}

/// The worker that `record` keeps, paying with `fee` and tracking at
/// most `cap` resources: those of the record, in order, as far as the
/// cap allows.
pub fn restore_worker(record: CheckpointRecord, fee: TrackedResource, cap: usize) -> (worker:
    WorkerState)
    ensures
        worker.wf(),
        worker.id == record.worker_id,
        worker.identity == record.identity,
        worker.fee == fee,
        worker.tracker.spec_cap() == cap,
        worker.tracker@ == capped(record.resources@, cap as nat),
        record.resources@.len() <= cap ==> keeps(&record, &worker),
{
    WorkerState {
        id: record.worker_id,
        identity: record.identity,
        fee,
        tracker: ResourceTracker::from_resources(cap, record.resources),
    }
}

impl Checkpoint {
    /// The checkpoint of `records`, with their resources counted.
    pub fn assemble(records: Vec<CheckpointRecord>) -> (c: Self)
        ensures
            c.workers == records,
            c.total_resources == total_tracked(records@),
    {
        let mut total: u128 = 0;
        let mut i: usize = 0;
        assert(records@.take(0) =~= Seq::<CheckpointRecord>::empty());
        while i < records.len()
            invariant
                i <= records@.len(),
                total == total_tracked(records@.take(i as int)),
                total <= i * 0xffff_ffff_ffff_ffff,
            decreases records@.len() - i,
        {
            assert(records@.take(i + 1).drop_last() =~= records@.take(i as int));
            assert(records@.take(i + 1).last() == records@[i as int]);
            assert(i * 0xffff_ffff_ffff_ffff + 0xffff_ffff_ffff_ffff
                <= 0xffff_ffff_ffff_ffff * 0xffff_ffff_ffff_ffff + 0xffff_ffff_ffff_ffff)
                by (nonlinear_arith)
                requires
                    i <= 0xffff_ffff_ffff_ffff,
            ;
            assert((i + 1) * 0xffff_ffff_ffff_ffff == i * 0xffff_ffff_ffff_ffff
                + 0xffff_ffff_ffff_ffff) by (nonlinear_arith);
            total = total + records[i].resources.len() as u128;
            i = i + 1;
        }
        assert(records@.take(i as int) =~= records@);
        Checkpoint { total_resources: total, workers: records }
    }
}

/// What a checkpoint keeps of one worker and gives back to another is
/// the same id, the same identity and the same tracked resources.
pub proof fn lemma_round_trip(record: &CheckpointRecord, saved: &WorkerState, restored: &WorkerState)
    requires
        keeps(record, saved),
        keeps(record, restored),
    ensures
        restored.id == saved.id,
        restored.identity == saved.identity,
        restored.tracker@ == saved.tracker@,
{
}

} // verus!

use fdp_sui_bench::resource::{Fingerprint, Handle, ResourceChange, TrackedResource};
use fdp_sui_bench::seeding::{apply_seed_outcome, SeedError, SeedPlan, SEED_BATCH};
use fdp_sui_bench::worker::{BatchOutcome, WorkerIdentity, WorkerState};

fn resource(n: u128) -> TrackedResource {
    TrackedResource::new(Handle { hi: 2, lo: n }, 1, Fingerprint { hi: 0, lo: n })
}

fn fresh_worker(cap: usize) -> WorkerState {
    let identity = WorkerIdentity { address: "0x1".to_string(), credential: "k".to_string() };
    WorkerState::new(0, identity, resource(9_000), cap)
}

#[test]
fn seed_plan_asks_in_batches_of_one_hundred() {
    let mut plan = SeedPlan::new(250);
    assert!(!plan.is_done());
    assert_eq!(plan.next_batch(), Some(100));
    assert_eq!(plan.next_batch(), Some(100));
    assert_eq!(plan.next_batch(), Some(50));
    assert!(plan.is_done());
    assert_eq!(plan.next_batch(), None);
    assert_eq!(plan.next_batch(), None);
    assert_eq!(SEED_BATCH, 100);
}

#[test]
fn seed_plan_for_nothing_is_done_at_once() {
    let mut plan = SeedPlan::new(0);
    assert!(plan.is_done());
    assert_eq!(plan.next_batch(), None);
}

#[test]
fn seed_plan_batches_add_up_to_the_count() {
    for count in [1usize, 99, 100, 101, 500, 12_345] {
        let mut plan = SeedPlan::new(count);
        let mut total = 0;
        let mut batches = 0;
        while let Some(batch) = plan.next_batch() {
            assert!(batch >= 1 && batch <= 100);
            total += batch;
            batches += 1;
        }
        assert_eq!(total, count);
        assert_eq!(batches, (count + 99) / 100);
    }
}

#[test]
fn an_accepted_seed_batch_is_tracked_up_to_the_cap() {
    let mut w = fresh_worker(3);
    let outcome = BatchOutcome::Accepted {
        fee: resource(9_001),
        changes: vec![
            ResourceChange::Created(resource(1)),
            ResourceChange::Mutated(resource(9_000)),
            ResourceChange::Created(resource(2)),
        ],
    };
    assert_eq!(apply_seed_outcome(&mut w, &outcome), Ok(2));
    assert_eq!(w.tracker.resources(), vec![resource(1), resource(2)]);
    assert_eq!(w.fee, resource(9_001));
    let more = BatchOutcome::Accepted {
        fee: resource(9_002),
        changes: vec![ResourceChange::Created(resource(3)), ResourceChange::Created(resource(4))],
    };
    assert_eq!(apply_seed_outcome(&mut w, &more), Ok(2));
    assert_eq!(w.tracker.resources(), vec![resource(1), resource(2), resource(3)]);
    assert_eq!(w.fee, resource(9_002));
}

#[test]
fn a_failed_seed_batch_changes_nothing() {
    let mut w = fresh_worker(3);
    w.tracker.append(resource(1));
    assert_eq!(apply_seed_outcome(&mut w, &BatchOutcome::Failed), Err(SeedError::SubmissionFailed));
    assert_eq!(w.tracker.resources(), vec![resource(1)]);
    assert_eq!(w.fee, resource(9_000));
    assert_eq!(w.id, 0);
}

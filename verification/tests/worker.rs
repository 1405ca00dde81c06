use fdp_sui_bench::resource::{Fingerprint, Handle, TrackedResource};
use fdp_sui_bench::worker::{WorkerIdentity, WorkerState};

#[test]
fn a_new_worker_tracks_nothing() {
    let identity = WorkerIdentity { address: "0xa".to_string(), credential: "c".to_string() };
    let fee = TrackedResource::new(Handle { hi: 0, lo: 1 }, 2, Fingerprint { hi: 3, lo: 4 });
    let w = WorkerState::new(9, identity.clone(), fee, 5000);
    assert_eq!(w.id, 9);
    assert_eq!(w.identity, identity);
    assert_eq!(w.fee, fee);
    assert!(w.tracker.is_empty());
    assert_eq!(w.tracker.cap(), 5000);
}

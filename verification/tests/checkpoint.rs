use fdp_sui_bench::checkpoint::{restore_worker, save_worker, Checkpoint, CheckpointRecord};
use fdp_sui_bench::resource::{Fingerprint, Handle, TrackedResource};
use fdp_sui_bench::worker::{WorkerIdentity, WorkerState};
use serde_json::{Number, Value};

fn resource(n: u128) -> TrackedResource {
    TrackedResource::new(
        Handle { hi: n.wrapping_mul(0x9e37_79b9_7f4a_7c15), lo: n },
        n as u64 + 1,
        Fingerprint { hi: !n, lo: n << 64 },
    )
}

fn worker(id: usize, count: u128) -> WorkerState {
    let identity = WorkerIdentity {
        address: format!("0x{:064x}", id + 1),
        credential: format!("AKv{}==", id),
    };
    let mut w = WorkerState::new(id, identity, resource(5_000 + id as u128), 5000);
    for n in 0..count {
        w.tracker.append(resource(n + 100 * id as u128));
    }
    w
}

#[test]
fn save_worker_keeps_id_identity_and_resources() {
    let w = worker(4, 3);
    let record = save_worker(&w);
    assert_eq!(record.worker_id, 4);
    assert_eq!(record.identity, w.identity);
    assert_eq!(record.resources, vec![resource(400), resource(401), resource(402)]);
}

#[test]
fn save_then_restore_gives_the_same_worker_back() {
    let w = worker(2, 120);
    let restored = restore_worker(save_worker(&w), resource(77), 5000);
    assert_eq!(restored.id, w.id);
    assert_eq!(restored.identity, w.identity);
    assert_eq!(restored.tracker.resources(), w.tracker.resources());
    assert_eq!(restored.tracker.cap(), 5000);
    assert_eq!(restored.fee, resource(77));
}

#[test]
fn restore_under_a_smaller_cap_keeps_what_fits() {
    let w = worker(0, 10);
    let restored = restore_worker(save_worker(&w), resource(77), 4);
    assert_eq!(restored.tracker.resources(), w.tracker.resources()[..4].to_vec());
    assert_eq!(restored.tracker.cap(), 4);
}

#[test]
fn assemble_counts_the_resources_of_all_workers() {
    let records: Vec<CheckpointRecord> =
        vec![save_worker(&worker(0, 3)), save_worker(&worker(1, 0)), save_worker(&worker(2, 7))];
    let checkpoint = Checkpoint::assemble(records.clone());
    assert_eq!(checkpoint.total_resources, 10);
    assert_eq!(checkpoint.workers, records);
    let empty = Checkpoint::assemble(vec![]);
    assert_eq!(empty.total_resources, 0);
    assert!(empty.workers.is_empty());
}

fn words(hi: u128, lo: u128) -> Value {
    Value::String(format!("{:032x}{:032x}", hi, lo))
}

fn unwords(v: &Value) -> (u128, u128) {
    let s = v.as_str().unwrap();
    (u128::from_str_radix(&s[..32], 16).unwrap(), u128::from_str_radix(&s[32..], 16).unwrap())
}

fn to_json(checkpoint: &Checkpoint) -> Value {
    let mut workers = Vec::new();
    for record in &checkpoint.workers {
        let mut objects = Vec::new();
        for r in &record.resources {
            let mut o = serde_json::Map::new();
            o.insert("id".to_string(), words(r.handle.hi, r.handle.lo));
            o.insert("version".to_string(), Value::Number(Number::from(r.version)));
            o.insert("digest".to_string(), words(r.fingerprint.hi, r.fingerprint.lo));
            objects.push(Value::Object(o));
        }
        let mut w = serde_json::Map::new();
        w.insert("worker_id".to_string(), Value::Number(Number::from(record.worker_id as u64)));
        w.insert("address".to_string(), Value::String(record.identity.address.clone()));
        w.insert("keypair_base64".to_string(), Value::String(record.identity.credential.clone()));
        w.insert("objects".to_string(), Value::Array(objects));
        workers.push(Value::Object(w));
    }
    let mut root = serde_json::Map::new();
    root.insert(
        "total_objects".to_string(),
        Value::Number(Number::from(checkpoint.total_resources as u64)),
    );
    root.insert("workers".to_string(), Value::Array(workers));
    Value::Object(root)
}

fn from_json(root: &Value) -> Checkpoint {
    let mut records = Vec::new();
    for w in root["workers"].as_array().unwrap() {
        let mut resources = Vec::new();
        for o in w["objects"].as_array().unwrap() {
            let (hi, lo) = unwords(&o["id"]);
            let (fhi, flo) = unwords(&o["digest"]);
            resources.push(TrackedResource::new(
                Handle { hi, lo },
                o["version"].as_u64().unwrap(),
                Fingerprint { hi: fhi, lo: flo },
            ));
        }
        records.push(CheckpointRecord {
            worker_id: w["worker_id"].as_u64().unwrap() as usize,
            identity: WorkerIdentity {
                address: w["address"].as_str().unwrap().to_string(),
                credential: w["keypair_base64"].as_str().unwrap().to_string(),
            },
            resources,
        });
    }
    let checkpoint = Checkpoint::assemble(records);
    assert_eq!(checkpoint.total_resources as u64, root["total_objects"].as_u64().unwrap());
    checkpoint
}

#[test]
fn a_checkpoint_written_and_read_again_restores_every_worker() {
    let workers = vec![worker(0, 500), worker(1, 0), worker(2, 37)];
    let checkpoint = Checkpoint::assemble(workers.iter().map(save_worker).collect());
    let text = serde_json::to_string_pretty(&to_json(&checkpoint)).unwrap();
    let read: Value = serde_json::from_str(&text).unwrap();
    let loaded = from_json(&read);
    assert_eq!(loaded, checkpoint);
    assert_eq!(loaded.total_resources, 537);
    for (record, saved) in loaded.workers.into_iter().zip(&workers) {
        let restored = restore_worker(record, saved.fee, 5000);
        assert_eq!(restored.id, saved.id);
        assert_eq!(restored.identity, saved.identity);
        assert_eq!(restored.tracker.resources(), saved.tracker.resources());
    }
}

//! Self-regulating core of a sustained-load generator: per-worker bookkeeping
//! of remote resources, memory-pressure throttling, failure backoff, and the
//! decisions of the worker loop, each with a machine-checked contract.

pub mod backoff;
pub mod checkpoint;
pub mod clock;
pub mod entropy;
pub mod funding;
pub mod meminfo;
pub mod pressure;
pub mod rate;
pub mod resource;
pub mod scheduler;
pub mod seeding;
pub mod stats;
pub mod text;
pub mod tracker;
pub mod worker;

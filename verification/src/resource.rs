//! Plain-value images of the remote objects a worker keeps track of.

use vstd::prelude::*;

verus! {

/// A 256-bit remote object identifier, as two big-endian 128-bit words.
#[derive(Clone, Copy, Debug, PartialEq, Eq, Structural)]
pub struct Handle {
    pub hi: u128,
    pub lo: u128,
}

/// A 256-bit content digest, as two big-endian 128-bit words.
#[derive(Clone, Copy, Debug, PartialEq, Eq, Structural)]
pub struct Fingerprint {
    pub hi: u128,
    pub lo: u128,
}

/// A remote mutable resource that a worker believes it owns at `version`.
#[derive(Clone, Copy, Debug, PartialEq, Eq, Structural)]
pub struct TrackedResource {
    pub handle: Handle,
    pub version: u64,
    pub fingerprint: Fingerprint,
}

/// The version and fingerprint that the remote service reports for a
/// resource that still exists.
#[derive(Clone, Copy, Debug, PartialEq, Eq, Structural)]
pub struct ResourceStamp {
    pub version: u64,
    pub fingerprint: Fingerprint,
}

/// One effect that the remote service reports for a submitted batch.
#[derive(Clone, Copy, Debug, PartialEq, Eq, Structural)]
pub enum ResourceChange {
    Created(TrackedResource),
    Mutated(TrackedResource),
}

impl TrackedResource {
    pub fn new(handle: Handle, version: u64, fingerprint: Fingerprint) -> (r: Self)
        ensures
            r == (TrackedResource { handle, version, fingerprint }),
    {
        TrackedResource { handle, version, fingerprint }
    }
}

} // verus!

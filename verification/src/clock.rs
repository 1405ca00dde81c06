//! The monotonic clock of the host, for the few places that read it.

use vstd::prelude::*;

verus! {

/// `std::time::Instant`, carried as an opaque value: nothing is known of
/// what is inside.
#[verifier::external_type_specification]
#[verifier::external_body]
pub struct ExInstant(std::time::Instant);

/// Calls `std::time::Instant::now`. The reading depends on when the call
/// is made, so nothing is claimed of it.
#[verifier::external_body]
pub(crate) fn now() -> (t: std::time::Instant) {
    std::time::Instant::now()
}

/// Calls `std::time::Instant::elapsed`. The span depends on when the
/// call is made, so nothing is claimed of it.
#[verifier::external_body]
pub(crate) fn elapsed_since(start: &std::time::Instant) -> (d: std::time::Duration) {
    start.elapsed()
}

/// Calls `std::time::Duration::as_millis`: the whole milliseconds in
/// the span. The span is opaque here, so nothing is claimed of the number.
#[verifier::external_body]
pub(crate) fn whole_millis(span: &std::time::Duration) -> (ms: u128) {
    span.as_millis()
}

} // verus!

//! Trusted boundary around the monotonic clock used by the busy-wait pacing
//! loops. Instants are opaque: what the clock returns depends on the machine
//! and the moment, so no wrapper promises anything about their values; the
//! pacing guarantees are stated over ghost schedule accounting instead.

use vstd::prelude::*;

verus! {

#[verifier::external_type_specification]
#[verifier::external_body]
pub struct ExInstant(std::time::Instant);

/// Relies on std::time::Instant::now: the current instant of the monotonic
/// clock.
#[verifier::external_body]
pub(crate) fn instant_now() -> (r: std::time::Instant) {
    std::time::Instant::now()
}

/// Relies on PartialOrd for std::time::Instant: whether `a` is strictly
/// earlier than `b`.
#[verifier::external_body]
pub(crate) fn instant_before(a: &std::time::Instant, b: &std::time::Instant) -> (r: bool) {
    *a < *b
}

/// Relies on std::time::Instant::checked_add: the instant `d` later, when it
/// is representable.
#[verifier::external_body]
pub(crate) fn instant_plus(i: &std::time::Instant, d: core::time::Duration) -> (r: Option<
    std::time::Instant,
>) {
    i.checked_add(d)
}

/// Relies on core::time::Duration::from_nanos: never fails.
#[verifier::external_body]
pub(crate) fn duration_from_nanos(nanos: u64) -> (r: core::time::Duration) {
    core::time::Duration::from_nanos(nanos)
}

/// Relies on core::time::Duration::from_micros: never fails.
#[verifier::external_body]
pub(crate) fn duration_from_micros(micros: u64) -> (r: core::time::Duration) {
    core::time::Duration::from_micros(micros)
}

} // verus!

use vstd::prelude::*;

verus! {

/// Relies on std::time::SystemTime::now: the wall clock, in nanoseconds since
/// the Unix epoch (0 when the clock reads earlier than the epoch). Nothing is
/// promised of the value: two readings may differ in any way.
#[verifier::external_body]
pub(crate) fn now_ns() -> (r: u64) {
    match std::time::SystemTime::now().duration_since(std::time::UNIX_EPOCH) {
        Ok(d) => d.as_nanos() as u64,
        Err(_) => 0,
    }
}

/// The wall clock in milliseconds since the Unix epoch.
pub fn current_timestamp_ms() -> (r: u64)
    ensures
        r <= u64::MAX / 1_000_000,
{
    now_ns() / 1_000_000
}

} // verus!

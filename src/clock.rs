use vstd::prelude::*;

verus! {

#[verifier::external_type_specification]
#[verifier::external_body]
pub struct ExSystemTime(std::time::SystemTime);

/// Relies on std::time::SystemTime::now: it reads the wall clock, so nothing is known of
/// the value it returns.
pub assume_specification[ std::time::SystemTime::now ]() -> std::time::SystemTime;

/// Relies on core::time::Duration::as_millis: the whole milliseconds of a duration.
pub assume_specification[ core::time::Duration::as_millis ](d: &core::time::Duration) -> u128;

/// Relies on std::time::SystemTime::duration_since with UNIX_EPOCH: the time elapsed since
/// the epoch, or nothing when the clock stands before it.
#[verifier::external_body]
fn elapsed_since_epoch(t: &std::time::SystemTime) -> (r: Option<core::time::Duration>) {
    t.duration_since(std::time::UNIX_EPOCH).ok()
}

/// Milliseconds as a timestamp column value: the count itself where it fits in an `i64`,
/// else the largest `i64`.
pub fn millis_to_timestamp(ms: u128) -> (r: i64)
    ensures
        r >= 0,
        ms <= i64::MAX ==> r == ms,
        ms > i64::MAX ==> r == i64::MAX,
{
    if ms <= i64::MAX as u128 {
        ms as i64
    } else {
        i64::MAX
    }
}

/// The wall-clock time in milliseconds since the epoch; 0 when the clock stands before it.
pub fn chrono_now_ms() -> (r: i64)
    ensures
        r >= 0,
{
    let now = std::time::SystemTime::now();
    match elapsed_since_epoch(&now) {
        Some(d) => millis_to_timestamp(d.as_millis()),
        None => 0,
    }
}

} // verus!

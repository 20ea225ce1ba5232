use vstd::prelude::*;

verus! {

/// Relies on chrono::Utc::now and DateTime::timestamp_millis: the wall-clock
/// time as milliseconds since the Unix epoch. The clock may jump forwards or
/// backwards between calls, so nothing is assumed of the value; callers state
/// what holds of every outcome.
#[verifier::external_body]
pub(crate) fn now_millis() -> i64 {
    chrono::Utc::now().timestamp_millis()
}

/// The wall clock as the library stamps presence and rate windows with it:
/// milliseconds since the Unix epoch, clamped to the epoch should the clock
/// report an earlier time.
pub fn current_millis() -> (r: i64)
    ensures
        r >= 0,
{
    let raw = now_millis();
    if raw < 0 {
        0
    } else {
        raw
    }
}

} // verus!

use vstd::prelude::*;

verus! {

#[verifier::external_type_specification]
#[verifier::external_body]
pub struct ExSystemTime(std::time::SystemTime);

#[verifier::external_type_specification]
#[verifier::external_body]
pub struct ExSystemTimeError(std::time::SystemTimeError);

/// The system clock now; nothing is known of its value.
pub assume_specification[ std::time::SystemTime::now ]() -> std::time::SystemTime;

/// The time elapsed since `earlier`, or an error when `earlier` is later.
pub assume_specification[ std::time::SystemTime::duration_since ](
    t: &std::time::SystemTime,
    earlier: std::time::SystemTime,
) -> Result<core::time::Duration, std::time::SystemTimeError>;

/// Whole milliseconds of a duration.
pub assume_specification[ core::time::Duration::as_millis ](d: &core::time::Duration) -> u128;

/// Relies on std::time::UNIX_EPOCH, the instant timestamps count from.
#[verifier::external_body]
fn unix_epoch() -> std::time::SystemTime {
    std::time::UNIX_EPOCH
}

/// A millisecond count as a `u64`: an elapsed time `Some(ms)` saturates at
/// `u64::MAX`; a clock set before the epoch (`None`) gives 0.
pub fn millis_or_zero(elapsed_ms: Option<u128>) -> (r: u64)
    ensures
        r == millis_or_zero_spec(elapsed_ms),
{
    match elapsed_ms {
        Some(ms) => if ms > u64::MAX as u128 {
            u64::MAX
        } else {
            ms as u64
        },
        None => 0,
    }
}

/// A later clock reading never gives an earlier timestamp.
pub proof fn lemma_millis_monotone(earlier: Option<u128>, later: Option<u128>)
    requires
        match (earlier, later) {
            (Some(a), Some(b)) => a <= b,
            (None, _) => true,
            (Some(_), None) => false,
        },
    ensures
        millis_or_zero_spec(earlier) <= millis_or_zero_spec(later),
{
}

pub open spec fn millis_or_zero_spec(elapsed_ms: Option<u128>) -> u64 {
    match elapsed_ms {
        Some(ms) => if ms > u64::MAX as u128 {
            u64::MAX
        } else {
            ms as u64
        },
        None => 0,
    }
}

/// Milliseconds since the Unix epoch by the system clock, as
/// `millis_or_zero` makes them of the elapsed whole milliseconds (0 for a
/// clock set before the epoch). Nothing is known of the clock's reading.
pub fn get_current_timestamp() -> (r: u64) {
    let now = std::time::SystemTime::now();
    let elapsed = match now.duration_since(unix_epoch()) {
        Ok(d) => Some(d.as_millis()),
        Err(_) => None,
    };
    millis_or_zero(elapsed)
}

} // verus!

use crate::error::LedError;
use vstd::prelude::*;

verus! {

/// The vendor's reserved duration value meaning "run until explicitly
/// stopped". A finite request must never be allowed to collide with it.
pub const LOGI_LED_DURATION_INFINITE: i32 = 0;

/// How an inter-flash or inter-pulse interval, given in whole milliseconds,
/// is marshaled for the foreign call: it must fit the call's signed 32-bit
/// width. No sentinel is reserved among intervals, so fitting is the only
/// demand.
pub open spec fn spec_interval_millis(ms: u128) -> Result<i32, LedError> {
    if ms <= i32::MAX {
        Ok(ms as i32)
    } else {
        Err(LedError::OutOfRange)
    }
}

/// How an optional overall duration, given in whole milliseconds, is
/// marshaled for the foreign call. An omitted duration maps to the infinite
/// sentinel; a finite duration must fit the signed 32-bit width and must not
/// collide with the sentinel.
pub open spec fn spec_duration_millis(duration_ms: Option<u128>) -> Result<i32, LedError> {
    match duration_ms {
        None => Ok(LOGI_LED_DURATION_INFINITE),
        Some(ms) => match spec_interval_millis(ms) {
            Ok(v) => if v == LOGI_LED_DURATION_INFINITE {
                Err(LedError::OutOfRange)
            } else {
                Ok(v)
            },
            Err(e) => Err(e),
        },
    }
}

/// Marshals an interval in whole milliseconds into the foreign call's
/// signed 32-bit width, rejecting values that do not fit.
pub fn interval_millis(ms: u128) -> (res: Result<i32, LedError>)
    ensures
        res == spec_interval_millis(ms),
{
    if ms <= i32::MAX as u128 {
        Ok(ms as i32)
    } else {
        Err(LedError::OutOfRange)
    }
}

/// Marshals an optional overall duration in whole milliseconds, mapping an
/// omitted duration to the infinite sentinel and rejecting a finite value
/// that overflows the foreign width or collides with the sentinel.
pub fn duration_millis(duration_ms: Option<u128>) -> (res: Result<i32, LedError>)
    ensures
        res == spec_duration_millis(duration_ms),
{
    match duration_ms {
        None => Ok(LOGI_LED_DURATION_INFINITE),
        Some(ms) => match interval_millis(ms) {
            Ok(v) => {
                if v == LOGI_LED_DURATION_INFINITE {
                    Err(LedError::OutOfRange)
                } else {
                    Ok(v)
                }
            },
            Err(e) => Err(e),
        },
    }
}

/// An omitted duration maps to the dedicated infinite sentinel, never to an
/// arbitrary millisecond count.
pub proof fn lemma_omitted_duration_is_infinite()
    ensures
        spec_duration_millis(None) == Ok::<i32, LedError>(LOGI_LED_DURATION_INFINITE),
{
}

/// A finite duration request whose millisecond count converts to exactly the
/// infinite sentinel is rejected, never silently reinterpreted as "run
/// forever".
pub proof fn lemma_sentinel_collision_rejected(ms: u128)
    requires
        ms == LOGI_LED_DURATION_INFINITE as u128,
    ensures
        spec_duration_millis(Some(ms)) == Err::<i32, LedError>(LedError::OutOfRange),
{
}

/// A duration whose millisecond count does not fit the foreign call's signed
/// 32-bit width is rejected, never truncated or wrapped.
pub proof fn lemma_unrepresentable_duration_rejected(ms: u128)
    requires
        ms > i32::MAX,
    ensures
        spec_duration_millis(Some(ms)) == Err::<i32, LedError>(LedError::OutOfRange),
{
}

} // verus!

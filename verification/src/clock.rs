//! Time: lengths of time, and the monotonic clock.

use std::time::{Duration, Instant};
use vstd::prelude::*;

verus! {

#[verifier::external_type_specification]
#[verifier::external_body]
pub struct ExInstant(std::time::Instant);

/// The length of a `std::time::Duration` in nanoseconds.
pub uninterp spec fn duration_nanos(duration: core::time::Duration) -> nat;

/// The length of a `std::time::Duration` in whole milliseconds.
pub open spec fn duration_millis(duration: Duration) -> nat {
    duration_nanos(duration) / 1_000_000
}

/// Where on the monotonic clock a `std::time::Instant` stands, in nanoseconds.
pub uninterp spec fn clock_nanos(reading: std::time::Instant) -> int;

/// The whole milliseconds from one reading of the clock to another, and none
/// where the other is the earlier one.
pub open spec fn millis_between(earlier: Instant, later: Instant) -> nat {
    if clock_nanos(earlier) <= clock_nanos(later) {
        ((clock_nanos(later) - clock_nanos(earlier)) / 1_000_000) as nat
    } else {
        0
    }
}

/// `std::time::Duration::is_zero`: whether it spans no time.
pub assume_specification[ core::time::Duration::is_zero ](duration: &Duration) -> (zero: bool)
    ensures
        zero == (duration_nanos(*duration) == 0),
;

/// `std::time::Duration::as_millis`: the whole milliseconds that it spans.
pub assume_specification[ core::time::Duration::as_millis ](duration: &Duration) -> (millis: u128)
    ensures
        millis == duration_millis(*duration),
;

/// `std::time::Duration::from_millis`: that many milliseconds.
pub assume_specification[ core::time::Duration::from_millis ](millis: u64) -> (duration: Duration)
    ensures
        duration_nanos(duration) == millis * 1_000_000,
;

/// `std::time::Instant::now`: a reading of the monotonic clock.
pub assume_specification[ std::time::Instant::now ]() -> (now: Instant)
;

/// Whether a call of `std::time::Instant::now` gave this reading.
pub open spec fn is_reading(now: Instant) -> bool {
    call_ensures(Instant::now, (), now)
}

/// `std::time::Instant::saturating_duration_since`: the time from an earlier
/// reading to this one, and none where that reading is the later one.
pub assume_specification[ std::time::Instant::saturating_duration_since ](
    later: &Instant,
    earlier: Instant,
) -> (span: Duration)
    ensures
        duration_nanos(span) == (if clock_nanos(earlier) <= clock_nanos(*later) {
            clock_nanos(*later) - clock_nanos(earlier)
        } else {
            0
        }),
;

/// `std::hint::spin_loop`: tells the processor that the caller is waiting.
pub assume_specification[ std::hint::spin_loop ]()
;

/// A reading is what a call of the clock gave, and the milliseconds between two
/// readings are those that have passed from one to the other.
pub proof fn law_readings_come_from_the_clock(earlier: Instant, later: Instant)
    ensures
        is_reading(earlier) <==> call_ensures(Instant::now, (), earlier),
        clock_nanos(earlier) <= clock_nanos(later) ==> {
            let passed = clock_nanos(later) - clock_nanos(earlier);
            millis_between(earlier, later) * 1_000_000 <= passed < (millis_between(earlier, later)
                + 1) * 1_000_000
        },
        clock_nanos(earlier) > clock_nanos(later) ==> millis_between(earlier, later) == 0,
{
}

} // verus!

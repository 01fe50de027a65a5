//! How long the loop sleeps after a frame's work.
use vstd::prelude::*;

verus! {

/// Numerator of the global time-speed multiplier applied to each sleep.
pub const TIME_SPEED_NUM: u64 = 1;

/// Denominator of the global time-speed multiplier applied to each sleep.
pub const TIME_SPEED_DEN: u64 = 1;

/// What is left of the frame budget `target` after `elapsed` has gone by,
/// never below zero.
pub open spec fn remaining(target: int, elapsed: int) -> int {
    if elapsed >= target {
        0
    } else {
        target - elapsed
    }
}

/// The sleep owed after a frame: the remaining budget scaled by
/// `speed_num / speed_den`, rounded down.
pub open spec fn sleep_spec(target: int, elapsed: int, speed_num: int, speed_den: int) -> int {
    remaining(target, elapsed) * speed_num / speed_den
}

/// Nanoseconds to sleep when the frame target is `target` and the frame's
/// work took `elapsed` since the last pace mark. A slow frame sleeps zero and
/// carries no debt into the next one.
pub fn sleep_duration(target: u64, elapsed: u64, speed_num: u64, speed_den: u64) -> (r: u128)
    requires
        speed_den > 0,
    ensures
        r == sleep_spec(target as int, elapsed as int, speed_num as int, speed_den as int),
        elapsed >= target ==> r == 0,
        speed_num == speed_den && elapsed < target ==> r == target - elapsed,
{
    let left: u64 = if elapsed >= target {
        0
    } else {
        target - elapsed
    };
    assert(left as int * speed_num as int <= u64::MAX as int * u64::MAX as int) by (nonlinear_arith)
        requires
            left <= u64::MAX,
            speed_num <= u64::MAX,
    ;
    let scaled: u128 = left as u128 * speed_num as u128;
    let r: u128 = scaled / speed_den as u128;
    proof {
        if speed_num == speed_den {
            assert(left as int * speed_num as int / speed_den as int == left as int) by (nonlinear_arith)
                requires
                    speed_num == speed_den,
                    speed_den > 0,
            ;
        }
    }
    r
}

} // verus!

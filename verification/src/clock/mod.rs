//! What the readings of the platforms' clocks mean.
//!
//! Each clock is a unit type that implements [`Clock`](crate::Clock): it takes
//! the raw outcome of one sample of its primitive, as plain integers, and
//! gives the instant that the sample stands for, or the error that it
//! reports. The primitives differ from platform to platform, so the clocks
//! come in three families, one module each.
//!
//! | Clock | `posix` | `darwin` | `win` |
//! |-------|---------|----------|-------|
//! | `SystemClock` | `clock_gettime(CLOCK_REALTIME)` | `gettimeofday` | `GetSystemTimeAsFileTime` |
//! | `SteadyClock` | `clock_gettime(CLOCK_MONOTONIC)` | `mach_timebase_info`, `mach_absolute_time` | `QueryPerformanceFrequency`, `QueryPerformanceCounter` |
//! | `ProcessRealCPUClock` | `times` | `times` | `QueryPerformanceFrequency`, `QueryPerformanceCounter` |
//! | `ProcessUserCPUClock` | `times` | `times` | `GetProcessTimes` |
//! | `ProcessSystemCPUClock` | `times` | `times` | `GetProcessTimes` |
//! | `ProcessCPUClock` | `times` | `times` | `GetProcessTimes`, `QueryPerformanceFrequency`, `QueryPerformanceCounter` |
//! | `ThreadClock` | `clock_gettime` on the thread's CPU-time clock | `thread_info` | `GetThreadTimes` |

use vstd::prelude::*;

pub mod darwin;
pub mod posix;
pub mod win;

verus! {

/// The platform's last error code, as the `errno` crate reads it: the calling
/// thread's `errno` on Unix, `GetLastError()` on Windows. Nothing is claimed
/// of the value.
#[verifier::external_body]
pub(crate) fn errno() -> (code: i32) {
    errno::errno().0
}

/// The value of a signed 64-bit integer read as an unsigned one: a negative
/// number stands for itself and two to the 64th.
pub open spec fn spec_unsigned(x: i64) -> nat {
    if x < 0 {
        (x + 0x1_0000_0000_0000_0000) as nat
    } else {
        x as nat
    }
}

/// The bits of a signed 64-bit integer read as an unsigned one.
pub fn unsigned(x: i64) -> (u: u64)
    ensures
        u == spec_unsigned(x),
{
    let u: u64 = #[verifier::truncate] (x as u64);
    assert(x >= 0 ==> u == x) by (bit_vector)
        requires
            u == x as u64,
    ;
    assert(x < 0 ==> u == x + 0x1_0000_0000_0000_0000) by (bit_vector)
        requires
            u == x as u64,
    ;
    u
}

} // verus!

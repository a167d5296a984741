//! The clocks of macOS and iOS.
//!
//! Wall-clock time comes from `gettimeofday`, steady time from the Mach
//! absolute time and its timebase, thread time from `thread_info`. The times
//! of the process are read as on any POSIX system.

use crate::clock::{errno, spec_unsigned, unsigned};
use crate::duration::{max_nanos, Duration};
use crate::types::{Clock, Error, Fault, TimePoint};
use vstd::prelude::*;

pub use crate::clock::posix::{
    ProcessCPUClock, ProcessRealCPUClock, ProcessSystemCPUClock, ProcessUserCPUClock,
};

verus! {

/// What `gettimeofday` hands back: its return value and the timeval that it
/// filled.
#[derive(Debug, Clone, Copy, PartialEq, Eq)]
pub struct TimevalReading {
    /// The return value of the call: zero on success.
    pub status: i32,
    /// The seconds of the timeval.
    pub sec: i64,
    /// The microseconds of the timeval.
    pub usec: i64,
}

impl TimevalReading {
    /// The time that the timeval holds, in nanoseconds; both fields are read
    /// as unsigned.
    pub open spec fn nanos(self) -> nat {
        spec_unsigned(self.sec) * 1_000_000_000 + spec_unsigned(self.usec) * 1_000
    }
}

/// The wall-clock time of the system, read by `gettimeofday`. It may jump
/// when the system's time is set.
pub struct SystemClock;

impl Clock for SystemClock {
    type Output = TimePoint;

    type Reading = TimevalReading;

    /// A timeval that was filled has to hold a time within the range of a
    /// span.
    open spec fn representable(reading: TimevalReading) -> bool {
        reading.status == 0 ==> reading.nanos() <= max_nanos()
    }

    open spec fn fault(reading: TimevalReading) -> Option<Fault> {
        if reading.status != 0 {
            Some(Fault::Call("gettimeofday"))
        } else {
            None
        }
    }

    open spec fn instant(reading: TimevalReading) -> TimePoint {
        TimePoint(Duration::from_total(reading.nanos()))
    }

    fn is_representable(reading: &TimevalReading) -> (b: bool) {
        if reading.status != 0 {
            return true;
        }
        let sec: u64 = unsigned(reading.sec);
        let usec: u64 = unsigned(reading.usec);
        sec.checked_add(usec / 1_000_000).is_some()
    }

    fn try_now(reading: TimevalReading) -> (r: Result<TimePoint, Error>) {
        if reading.status != 0 {
            return Err(Error::SystemError("gettimeofday", errno()));
        }
        let d = Duration::from_secs(unsigned(reading.sec)).plus(
            Duration::from_micros(unsigned(reading.usec)),
        );
        Ok(TimePoint(d))
    }
}

/// What one sample of the Mach absolute time hands back.
#[derive(Debug, Clone, Copy, PartialEq, Eq)]
pub struct MachReading {
    /// The return value of `mach_timebase_info`: zero on success.
    pub status: i32,
    /// The numerator of the timebase.
    pub numer: u32,
    /// The denominator of the timebase.
    pub denom: u32,
    /// The return value of `mach_absolute_time`: ticks since boot.
    pub ticks: u64,
}

/// The whole nanoseconds that one tick of the Mach absolute time lasts: the
/// timebase's numerator over its denominator, rounded toward zero. A
/// denominator of zero under another numerator gives the largest factor there
/// is.
pub open spec fn spec_mach_factor(numer: u32, denom: u32) -> nat {
    if numer == denom {
        1
    } else if denom == 0 {
        0xffff_ffff_ffff_ffff
    } else {
        (numer / denom) as nat
    }
}

/// The whole nanoseconds that one tick of the Mach absolute time lasts.
pub fn mach_factor(numer: u32, denom: u32) -> (factor: u64)
    ensures
        factor == spec_mach_factor(numer, denom),
{
    if numer == denom {
        1
    } else if denom == 0 {
        u64::MAX
    } else {
        (numer / denom) as u64
    }
}

/// A clock that never runs backward: the Mach absolute time, scaled by its
/// timebase. Where `mach_timebase_info` fails, the error carries the value
/// that the call returned.
pub struct SteadyClock;

impl Clock for SteadyClock {
    type Output = TimePoint;

    type Reading = MachReading;

    /// The scaled ticks of a sample whose timebase was read have to stay
    /// within the range of a span.
    open spec fn representable(reading: MachReading) -> bool {
        reading.status == 0 ==> reading.ticks * spec_mach_factor(reading.numer, reading.denom)
            <= max_nanos()
    }

    open spec fn fault(reading: MachReading) -> Option<Fault> {
        if reading.status != 0 {
            Some(Fault::Call("mach_timebase_info"))
        } else {
            None
        }
    }

    open spec fn instant(reading: MachReading) -> TimePoint {
        TimePoint(
            Duration::from_total(
                reading.ticks as nat * spec_mach_factor(reading.numer, reading.denom),
            ),
        )
    }

    fn is_representable(reading: &MachReading) -> (b: bool) {
        if reading.status != 0 {
            return true;
        }
        Duration::checked_from_ticks(
            reading.ticks,
            mach_factor(reading.numer, reading.denom),
        ).is_some()
    }

    fn try_now(reading: MachReading) -> (r: Result<TimePoint, Error>)
        ensures
            reading.status != 0 ==> r == Err::<TimePoint, Error>(
                Error::SystemError("mach_timebase_info", reading.status),
            ),
    {
        if reading.status != 0 {
            return Err(Error::SystemError("mach_timebase_info", reading.status));
        }
        let d = Duration::from_ticks(reading.ticks, mach_factor(reading.numer, reading.denom));
        proof {
            d.lemma_view_bounded();
        }
        Ok(TimePoint(d))
    }
}

/// The clock of highest resolution: the steady one.
pub type HighResolutionClock = SteadyClock;

/// What `thread_info` hands back for the basic information of a thread: its
/// return value and the two times that it filled in, each as seconds and
/// microseconds.
#[derive(Debug, Clone, Copy, PartialEq, Eq)]
pub struct ThreadInfoReading {
    /// The return value of the call: zero on success.
    pub status: i32,
    /// The seconds of the time spent in user mode.
    pub user_seconds: i32,
    /// The microseconds of the time spent in user mode.
    pub user_microseconds: i32,
    /// The seconds of the time spent in kernel mode.
    pub system_seconds: i32,
    /// The microseconds of the time spent in kernel mode.
    pub system_microseconds: i32,
}

impl ThreadInfoReading {
    /// The time spent in user mode, in nanoseconds; both fields are widened
    /// and read as unsigned.
    pub open spec fn user_nanos(self) -> nat {
        spec_unsigned(self.user_seconds as i64) * 1_000_000_000 + spec_unsigned(
            self.user_microseconds as i64,
        ) * 1_000
    }

    /// The time spent in kernel mode, in nanoseconds; both fields are widened
    /// and read as unsigned.
    pub open spec fn system_nanos(self) -> nat {
        spec_unsigned(self.system_seconds as i64) * 1_000_000_000 + spec_unsigned(
            self.system_microseconds as i64,
        ) * 1_000
    }
}

/// The span of `seconds` and `microseconds`, both widened and read as
/// unsigned, or `None` where it would leave the range of a span.
fn checked_time_value(seconds: i32, microseconds: i32) -> (r: Option<Duration>)
    ensures
        ({
            let nanos = spec_unsigned(seconds as i64) * 1_000_000_000 + spec_unsigned(
                microseconds as i64,
            ) * 1_000;
            &&& nanos <= max_nanos() ==> r == Some(Duration::from_total(nanos))
            &&& nanos > max_nanos() ==> r is None
        }),
{
    let whole = Duration::from_secs(unsigned(seconds as i64));
    let part = Duration::from_micros(unsigned(microseconds as i64));
    whole.checked_add(part)
}

/// The CPU time of the calling thread, in user and kernel mode together, read
/// by `thread_info`. Where the call fails, the error carries the value that
/// it returned.
pub struct ThreadClock;

impl Clock for ThreadClock {
    type Output = TimePoint;

    type Reading = ThreadInfoReading;

    /// The two times of a sample that was filled have to stay, together,
    /// within the range of a span.
    open spec fn representable(reading: ThreadInfoReading) -> bool {
        reading.status == 0 ==> reading.user_nanos() + reading.system_nanos() <= max_nanos()
    }

    open spec fn fault(reading: ThreadInfoReading) -> Option<Fault> {
        if reading.status != 0 {
            Some(Fault::Call("thread_info"))
        } else {
            None
        }
    }

    open spec fn instant(reading: ThreadInfoReading) -> TimePoint {
        TimePoint(Duration::from_total(reading.user_nanos() + reading.system_nanos()))
    }

    fn is_representable(reading: &ThreadInfoReading) -> (b: bool) {
        if reading.status != 0 {
            return true;
        }
        match checked_time_value(reading.user_seconds, reading.user_microseconds) {
            None => false,
            Some(user) => match checked_time_value(
                reading.system_seconds,
                reading.system_microseconds,
            ) {
                None => false,
                Some(system) => {
                    proof {
                        Duration::lemma_from_total(reading.user_nanos());
                        Duration::lemma_from_total(reading.system_nanos());
                    }
                    user.checked_add(system).is_some()
                },
            },
        }
    }

    fn try_now(reading: ThreadInfoReading) -> (r: Result<TimePoint, Error>)
        ensures
            reading.status != 0 ==> r == Err::<TimePoint, Error>(
                Error::SystemError("thread_info", reading.status),
            ),
    {
        if reading.status != 0 {
            return Err(Error::SystemError("thread_info", reading.status));
        }
        let user = Duration::from_secs(unsigned(reading.user_seconds as i64)).plus(
            Duration::from_micros(unsigned(reading.user_microseconds as i64)),
        );
        let system = Duration::from_secs(unsigned(reading.system_seconds as i64)).plus(
            Duration::from_micros(unsigned(reading.system_microseconds as i64)),
        );
        Ok(TimePoint(user.plus(system)))
    }
}

/// Reading a timeval keeps the order of time: of two filled timevals in
/// normal form, the one that holds the later time gives the later instant.
pub proof fn lemma_timeval_order(earlier: TimevalReading, later: TimevalReading)
    requires
        earlier.status == 0,
        later.status == 0,
        0 <= earlier.sec,
        0 <= earlier.usec < 1_000_000,
        0 <= later.sec,
        0 <= later.usec < 1_000_000,
        earlier.sec < later.sec || (earlier.sec == later.sec && earlier.usec <= later.usec),
    ensures
        SystemClock::representable(earlier),
        SystemClock::representable(later),
        SystemClock::instant(earlier)@ <= SystemClock::instant(later)@,
{
    Duration::lemma_from_total(earlier.nanos());
    Duration::lemma_from_total(later.nanos());
}

/// Scaling the Mach absolute time keeps its order: under one timebase, the
/// larger of two tick counts gives the later instant.
pub proof fn lemma_mach_order(earlier: MachReading, later: MachReading)
    requires
        earlier.status == 0,
        later.status == 0,
        earlier.numer == later.numer,
        earlier.denom == later.denom,
        earlier.ticks <= later.ticks,
        SteadyClock::representable(later),
    ensures
        SteadyClock::representable(earlier),
        SteadyClock::instant(earlier)@ <= SteadyClock::instant(later)@,
{
    let factor = spec_mach_factor(later.numer, later.denom);
    assert(earlier.ticks * factor <= later.ticks * factor) by (nonlinear_arith)
        requires
            earlier.ticks <= later.ticks,
            0 <= factor,
    ;
    Duration::lemma_from_total(earlier.ticks as nat * factor);
    Duration::lemma_from_total(later.ticks as nat * factor);
}

} // verus!

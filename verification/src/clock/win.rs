//! The clocks of Windows.
//!
//! Wall-clock time and the CPU times of processes and threads come as
//! FILETIME values, which count in ticks of 100 nanoseconds. Steady time
//! comes from the performance counter and its frequency.

use crate::clock::{errno, spec_unsigned, unsigned};
use crate::duration::{max_nanos, Duration};
use crate::types::{Clock, Error, Fault, ProcessTimePoint, TimePoint};
use vstd::prelude::*;

verus! {

/// A FILETIME: a count of 100-nanosecond ticks in two halves of 32 bits.
#[derive(Debug, Clone, Copy, PartialEq, Eq)]
pub struct Filetime {
    /// The low half of the count.
    pub low: u32,
    /// The high half of the count.
    pub high: u32,
}

impl Filetime {
    /// The count of ticks that the two halves hold.
    pub open spec fn ticks(self) -> nat {
        (self.high * 0x1_0000_0000 + self.low) as nat
    }
}

/// Nanoseconds in one tick of a FILETIME.
pub const NANOS_PER_FILETIME_TICK: u64 = 100;

/// The span that a FILETIME counts: its ticks, of 100 nanoseconds each.
pub open spec fn spec_filetime_to_duration(ft: Filetime) -> Duration {
    Duration::from_total(ft.ticks() * 100)
}

/// The span that a FILETIME counts: its ticks, of 100 nanoseconds each.
pub fn filetime_to_duration(ft: Filetime) -> (d: Duration)
    ensures
        d == spec_filetime_to_duration(ft),
        d.wf(),
        d@ == ft.ticks() * 100,
{
    let high: u64 = ft.high as u64;
    let low: u64 = ft.low as u64;
    let ticks: u64 = (high << 32) | low;
    assert(ticks == high * 0x1_0000_0000 + low) by (bit_vector)
        requires
            ticks == (high << 32) | low,
            high <= 0xffff_ffff,
            low <= 0xffff_ffff,
    ;
    let d = Duration::from_ticks(ticks, NANOS_PER_FILETIME_TICK);
    proof {
        d.lemma_view_bounded();
    }
    d
}

/// The whole nanoseconds that one tick of the performance counter lasts: a
/// thousand million over the frequency, rounded toward zero and, where the
/// frequency is negative, read as unsigned.
pub open spec fn spec_performance_factor(frequency: i64) -> nat {
    spec_unsigned((1_000_000_000int / (frequency as int)) as i64)
}

/// The whole nanoseconds that one tick of the performance counter lasts.
pub fn performance_factor(frequency: i64) -> (factor: u64)
    requires
        frequency != 0,
    ensures
        factor == spec_performance_factor(frequency),
        frequency > 0 ==> factor == 1_000_000_000int / (frequency as int) && factor
            <= 1_000_000_000,
{
    assert(frequency > 0 ==> 0 <= 1_000_000_000int / (frequency as int) <= 1_000_000_000)
        by (nonlinear_arith);
    unsigned(1_000_000_000 / frequency)
}

/// What one sample of the performance counter hands back.
#[derive(Debug, Clone, Copy, PartialEq, Eq)]
pub struct PerformanceReading {
    /// The return value of `QueryPerformanceFrequency`: zero on failure.
    pub frequency_status: i32,
    /// The frequency that it filled in: ticks per second.
    pub frequency: i64,
    /// The return value of `QueryPerformanceCounter`: zero on failure.
    pub counter_status: i32,
    /// The count that it filled in: ticks since some point in the past.
    pub counter: i64,
}

impl PerformanceReading {
    /// The time that the count stands for, in nanoseconds: the count, read as
    /// unsigned, times the whole nanoseconds per tick.
    pub open spec fn nanos(self) -> nat {
        spec_unsigned(self.counter) * spec_performance_factor(self.frequency)
    }

    /// A frequency that was read may not be zero, and the time of a count
    /// that was read has to stay within the range of a span.
    pub open spec fn representable(self) -> bool {
        self.frequency_status != 0 ==> {
            &&& self.frequency != 0
            &&& self.counter_status != 0 ==> self.nanos() <= max_nanos()
        }
    }

    /// What the sample reports as gone wrong: a failed query of the
    /// frequency first, then a failed query of the counter.
    pub open spec fn fault(self) -> Option<Fault> {
        if self.frequency_status == 0 {
            Some(Fault::Call("QueryPerformanceFrequency"))
        } else if self.counter_status == 0 {
            Some(Fault::Call("QueryPerformanceCounter"))
        } else {
            None
        }
    }

    /// The instant that lies the time of the count after the counter's
    /// reference.
    pub open spec fn instant(self) -> TimePoint {
        TimePoint(Duration::from_total(self.nanos()))
    }

    /// Whether the sample can be turned into an instant.
    pub fn is_representable(&self) -> (b: bool)
        ensures
            b == self.representable(),
    {
        if self.frequency_status == 0 {
            return true;
        }
        if self.frequency == 0 {
            return false;
        }
        if self.counter_status == 0 {
            return true;
        }
        Duration::checked_from_ticks(
            unsigned(self.counter),
            performance_factor(self.frequency),
        ).is_some()
    }

    /// The instant of the sample, or the error that it reports.
    pub fn time_point(self) -> (r: Result<TimePoint, Error>)
        requires
            self.representable(),
        ensures
            match self.fault() {
                None => r == Ok::<TimePoint, Error>(self.instant()),
                Some(f) => r matches Err(e) && e.spec_fault() == f,
            },
    {
        if self.frequency_status == 0 {
            return Err(Error::SystemError("QueryPerformanceFrequency", errno()));
        }
        let factor = performance_factor(self.frequency);
        if self.counter_status == 0 {
            return Err(Error::SystemError("QueryPerformanceCounter", errno()));
        }
        let d = Duration::from_ticks(unsigned(self.counter), factor);
        proof {
            d.lemma_view_bounded();
        }
        Ok(TimePoint(d))
    }
}

/// The wall-clock time of the system, read by `GetSystemTimeAsFileTime`,
/// which cannot fail. It may jump when the system's time is set.
pub struct SystemClock;

impl Clock for SystemClock {
    type Output = TimePoint;

    type Reading = Filetime;

    open spec fn representable(reading: Filetime) -> bool {
        true
    }

    open spec fn fault(reading: Filetime) -> Option<Fault> {
        None
    }

    open spec fn instant(reading: Filetime) -> TimePoint {
        TimePoint(spec_filetime_to_duration(reading))
    }

    fn is_representable(reading: &Filetime) -> (b: bool) {
        true
    }

    fn try_now(reading: Filetime) -> (r: Result<TimePoint, Error>) {
        Ok(TimePoint(filetime_to_duration(reading)))
    }
}

/// A clock that never runs backward: the performance counter, scaled by its
/// frequency.
pub struct SteadyClock;

impl Clock for SteadyClock {
    type Output = TimePoint;

    type Reading = PerformanceReading;

    open spec fn representable(reading: PerformanceReading) -> bool {
        reading.representable()
    }

    open spec fn fault(reading: PerformanceReading) -> Option<Fault> {
        reading.fault()
    }

    open spec fn instant(reading: PerformanceReading) -> TimePoint {
        reading.instant()
    }

    fn is_representable(reading: &PerformanceReading) -> (b: bool) {
        reading.is_representable()
    }

    fn try_now(reading: PerformanceReading) -> (r: Result<TimePoint, Error>) {
        reading.time_point()
    }
}

/// The clock of highest resolution: the steady one.
pub type HighResolutionClock = SteadyClock;

/// The wall-clock time of the process: the steady clock.
pub struct ProcessRealCPUClock;

impl Clock for ProcessRealCPUClock {
    type Output = TimePoint;

    type Reading = PerformanceReading;

    open spec fn representable(reading: PerformanceReading) -> bool {
        reading.representable()
    }

    open spec fn fault(reading: PerformanceReading) -> Option<Fault> {
        reading.fault()
    }

    open spec fn instant(reading: PerformanceReading) -> TimePoint {
        reading.instant()
    }

    fn is_representable(reading: &PerformanceReading) -> (b: bool) {
        reading.is_representable()
    }

    fn try_now(reading: PerformanceReading) -> (r: Result<TimePoint, Error>) {
        reading.time_point()
    }
}

/// What `GetProcessTimes` or `GetThreadTimes` hands back: its return value
/// and the two CPU times that it filled in.
#[derive(Debug, Clone, Copy, PartialEq, Eq)]
pub struct CpuTimesReading {
    /// The return value of the call: zero on failure.
    pub status: i32,
    /// The time spent in user mode.
    pub user: Filetime,
    /// The time spent in kernel mode.
    pub system: Filetime,
}

/// The outcome of `GetProcessTimes`: the times in user and in kernel mode,
/// in that order, unless the call returned zero.
pub fn get_process_times(reading: CpuTimesReading) -> (r: Result<(Filetime, Filetime), Error>)
    ensures
        reading.status != 0 ==> r == Ok::<(Filetime, Filetime), Error>(
            (reading.user, reading.system),
        ),
        reading.status == 0 ==> (r matches Err(e) && e.spec_fault() == Fault::Call(
            "GetProcessTimes",
        )),
{
    if reading.status == 0 {
        return Err(Error::SystemError("GetProcessTimes", errno()));
    }
    Ok((reading.user, reading.system))
}

/// What a failed `GetProcessTimes` reports.
pub open spec fn process_times_fault(reading: CpuTimesReading) -> Option<Fault> {
    if reading.status == 0 {
        Some(Fault::Call("GetProcessTimes"))
    } else {
        None
    }
}

/// The CPU time that the process spent in user mode.
pub struct ProcessUserCPUClock;

impl Clock for ProcessUserCPUClock {
    type Output = TimePoint;

    type Reading = CpuTimesReading;

    open spec fn representable(reading: CpuTimesReading) -> bool {
        true
    }

    open spec fn fault(reading: CpuTimesReading) -> Option<Fault> {
        process_times_fault(reading)
    }

    open spec fn instant(reading: CpuTimesReading) -> TimePoint {
        TimePoint(spec_filetime_to_duration(reading.user))
    }

    fn is_representable(reading: &CpuTimesReading) -> (b: bool) {
        true
    }

    fn try_now(reading: CpuTimesReading) -> (r: Result<TimePoint, Error>) {
        let (user, _) = get_process_times(reading)?;
        Ok(TimePoint(filetime_to_duration(user)))
    }
}

/// The CPU time that the process spent in kernel mode.
pub struct ProcessSystemCPUClock;

impl Clock for ProcessSystemCPUClock {
    type Output = TimePoint;

    type Reading = CpuTimesReading;

    open spec fn representable(reading: CpuTimesReading) -> bool {
        true
    }

    open spec fn fault(reading: CpuTimesReading) -> Option<Fault> {
        process_times_fault(reading)
    }

    open spec fn instant(reading: CpuTimesReading) -> TimePoint {
        TimePoint(spec_filetime_to_duration(reading.system))
    }

    fn is_representable(reading: &CpuTimesReading) -> (b: bool) {
        true
    }

    fn try_now(reading: CpuTimesReading) -> (r: Result<TimePoint, Error>) {
        let (_, system) = get_process_times(reading)?;
        Ok(TimePoint(filetime_to_duration(system)))
    }
}

/// What one sample of all three times of the process hands back.
#[derive(Debug, Clone, Copy, PartialEq, Eq)]
pub struct ProcessReading {
    /// The outcome of `GetProcessTimes`.
    pub times: CpuTimesReading,
    /// The sample of the performance counter.
    pub steady: PerformanceReading,
}

/// Wall-clock, user-mode and kernel-mode time of the process: the CPU times
/// from `GetProcessTimes`, the wall-clock time from the steady clock.
pub struct ProcessCPUClock;

impl Clock for ProcessCPUClock {
    type Output = ProcessTimePoint;

    type Reading = ProcessReading;

    /// The sample of the performance counter is looked at only where the CPU
    /// times were read.
    open spec fn representable(reading: ProcessReading) -> bool {
        reading.times.status != 0 ==> reading.steady.representable()
    }

    open spec fn fault(reading: ProcessReading) -> Option<Fault> {
        if reading.times.status == 0 {
            Some(Fault::Call("GetProcessTimes"))
        } else {
            reading.steady.fault()
        }
    }

    open spec fn instant(reading: ProcessReading) -> ProcessTimePoint {
        ProcessTimePoint {
            real: reading.steady.instant().0,
            user: spec_filetime_to_duration(reading.times.user),
            system: spec_filetime_to_duration(reading.times.system),
        }
    }

    fn is_representable(reading: &ProcessReading) -> (b: bool) {
        reading.times.status == 0 || reading.steady.is_representable()
    }

    fn try_now(reading: ProcessReading) -> (r: Result<ProcessTimePoint, Error>) {
        let (user, system) = get_process_times(reading.times)?;
        let wall = reading.steady.time_point()?;
        Ok(
            ProcessTimePoint {
                real: wall.0,
                user: filetime_to_duration(user),
                system: filetime_to_duration(system),
            },
        )
    }
}

/// The CPU time of the calling thread, in user and kernel mode together, read
/// by `GetThreadTimes`.
pub struct ThreadClock;

impl Clock for ThreadClock {
    type Output = TimePoint;

    type Reading = CpuTimesReading;

    open spec fn representable(reading: CpuTimesReading) -> bool {
        true
    }

    open spec fn fault(reading: CpuTimesReading) -> Option<Fault> {
        if reading.status == 0 {
            Some(Fault::Call("GetThreadTimes"))
        } else {
            None
        }
    }

    open spec fn instant(reading: CpuTimesReading) -> TimePoint {
        TimePoint(
            Duration::from_total(reading.user.ticks() * 100 + reading.system.ticks() * 100),
        )
    }

    fn is_representable(reading: &CpuTimesReading) -> (b: bool) {
        true
    }

    fn try_now(reading: CpuTimesReading) -> (r: Result<TimePoint, Error>) {
        if reading.status == 0 {
            return Err(Error::SystemError("GetThreadTimes", errno()));
        }
        let user = filetime_to_duration(reading.user);
        let system = filetime_to_duration(reading.system);
        Ok(TimePoint(user.plus(system)))
    }
}

/// Reading a FILETIME keeps the order of its ticks.
pub proof fn lemma_filetime_order(earlier: Filetime, later: Filetime)
    requires
        earlier.ticks() <= later.ticks(),
    ensures
        spec_filetime_to_duration(earlier)@ <= spec_filetime_to_duration(later)@,
{
    Duration::lemma_from_total(earlier.ticks() * 100);
    Duration::lemma_from_total(later.ticks() * 100);
}

/// Scaling the performance counter keeps its order: at one positive
/// frequency, the larger of two counts that are not negative gives the later
/// instant.
pub proof fn lemma_performance_order(earlier: PerformanceReading, later: PerformanceReading)
    requires
        earlier.fault() is None,
        later.fault() is None,
        earlier.frequency == later.frequency,
        earlier.frequency > 0,
        0 <= earlier.counter <= later.counter,
    ensures
        earlier.representable(),
        later.representable(),
        earlier.instant()@ <= later.instant()@,
{
    let frequency = later.frequency;
    let factor = spec_performance_factor(frequency);
    assert(0 <= 1_000_000_000int / (frequency as int) <= 1_000_000_000) by (nonlinear_arith)
        requires
            frequency > 0,
    ;
    assert(earlier.counter * factor <= later.counter * factor <= 0x7fff_ffff_ffff_ffff
        * 1_000_000_000) by (nonlinear_arith)
        requires
            0 <= earlier.counter <= later.counter <= 0x7fff_ffff_ffff_ffff,
            0 <= factor <= 1_000_000_000,
    ;
    Duration::lemma_from_total(earlier.nanos());
    Duration::lemma_from_total(later.nanos());
}

} // verus!

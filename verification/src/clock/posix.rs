//! The clocks of a POSIX system.
//!
//! Wall-clock, steady and thread time come from `clock_gettime`, which fills
//! a timespec of seconds and nanoseconds. The times of the process come from
//! `times`, which counts in clock ticks, and `sysconf(_SC_CLK_TCK)`, which
//! says how many ticks make a second.

use crate::clock::{errno, spec_unsigned, unsigned};
use crate::duration::{max_nanos, Duration};
use crate::types::{Clock, Error, Fault, ProcessTimePoint, TimePoint};
use vstd::prelude::*;

verus! {

/// What `clock_gettime` hands back: its return value and the timespec that it
/// filled.
#[derive(Debug, Clone, Copy, PartialEq, Eq)]
pub struct TimespecReading {
    /// The return value of the call: zero on success.
    pub status: i32,
    /// The seconds of the timespec.
    pub sec: i64,
    /// The nanoseconds of the timespec.
    pub nsec: i64,
}

impl TimespecReading {
    /// The time that the timespec holds, in nanoseconds; both fields are read
    /// as unsigned.
    pub open spec fn nanos(self) -> nat {
        spec_unsigned(self.sec) * 1_000_000_000 + spec_unsigned(self.nsec)
    }

    /// A timespec that was filled has to hold a time within the range of a
    /// span.
    pub open spec fn representable(self) -> bool {
        self.status == 0 ==> self.nanos() <= max_nanos()
    }

    /// The call failed where it returned anything but zero.
    pub open spec fn fault(self) -> Option<Fault> {
        if self.status != 0 {
            Some(Fault::Call("clock_gettime"))
        } else {
            None
        }
    }

    /// The instant that lies the time of the timespec after the clock's
    /// reference.
    pub open spec fn instant(self) -> TimePoint {
        TimePoint(Duration::from_total(self.nanos()))
    }

    /// Whether the time of a filled timespec is within the range of a span.
    pub fn is_representable(&self) -> (b: bool)
        ensures
            b == self.representable(),
    {
        if self.status != 0 {
            return true;
        }
        let sec: u64 = unsigned(self.sec);
        let nsec: u64 = unsigned(self.nsec);
        sec.checked_add(nsec / 1_000_000_000).is_some()
    }

    /// The instant of the reading, or the error that it reports.
    pub fn time_point(self) -> (r: Result<TimePoint, Error>)
        requires
            self.representable(),
        ensures
            match self.fault() {
                None => r == Ok::<TimePoint, Error>(self.instant()),
                Some(f) => r matches Err(e) && e.spec_fault() == f,
            },
    {
        if self.status != 0 {
            return Err(Error::SystemError("clock_gettime", errno()));
        }
        let d = Duration::from_secs(unsigned(self.sec)).plus(
            Duration::from_nanos(unsigned(self.nsec)),
        );
        Ok(TimePoint(d))
    }
}

/// The wall-clock time of the system, read by
/// `clock_gettime(CLOCK_REALTIME)`. It may jump when the system's time is
/// set.
pub struct SystemClock;

impl Clock for SystemClock {
    type Output = TimePoint;

    type Reading = TimespecReading;

    open spec fn representable(reading: TimespecReading) -> bool {
        reading.representable()
    }

    open spec fn fault(reading: TimespecReading) -> Option<Fault> {
        reading.fault()
    }

    open spec fn instant(reading: TimespecReading) -> TimePoint {
        reading.instant()
    }

    fn is_representable(reading: &TimespecReading) -> (b: bool) {
        reading.is_representable()
    }

    fn try_now(reading: TimespecReading) -> (r: Result<TimePoint, Error>) {
        reading.time_point()
    }
}

/// A clock that never runs backward, read by
/// `clock_gettime(CLOCK_MONOTONIC)`. Its reference has no fixed relation to
/// wall-clock time.
pub struct SteadyClock;

impl Clock for SteadyClock {
    type Output = TimePoint;

    type Reading = TimespecReading;

    open spec fn representable(reading: TimespecReading) -> bool {
        reading.representable()
    }

    open spec fn fault(reading: TimespecReading) -> Option<Fault> {
        reading.fault()
    }

    open spec fn instant(reading: TimespecReading) -> TimePoint {
        reading.instant()
    }

    fn is_representable(reading: &TimespecReading) -> (b: bool) {
        reading.is_representable()
    }

    fn try_now(reading: TimespecReading) -> (r: Result<TimePoint, Error>) {
        reading.time_point()
    }
}

/// The clock of highest resolution: the steady one.
pub type HighResolutionClock = SteadyClock;

/// The most ticks per second that can still be turned into whole nanoseconds
/// per tick.
pub const MAX_TICKS_PER_SECOND: i64 = 1_000_000_000;

/// What is wrong with a tick frequency, if anything: one that is not
/// positive means that `sysconf` failed, one above a tick per nanosecond
/// cannot be converted.
pub open spec fn tick_fault(ticks_per_second: i64) -> Option<Fault> {
    if ticks_per_second <= 0 {
        Some(Fault::Call("sysconf(_SC_CLK_TCK)"))
    } else if ticks_per_second > 1_000_000_000 {
        Some(Fault::FrequencyTooHigh)
    } else {
        None
    }
}

/// The nanoseconds that one tick lasts, rounded down.
pub open spec fn spec_tick_factor(ticks_per_second: i64) -> nat {
    (1_000_000_000int / (ticks_per_second as int)) as nat
}

/// The nanoseconds that one tick lasts, from what `sysconf(_SC_CLK_TCK)`
/// returned: the ticks per second.
pub fn tick_factor(ticks_per_second: i64) -> (r: Result<u64, Error>)
    ensures
        match tick_fault(ticks_per_second) {
            None => r == Ok::<u64, Error>(spec_tick_factor(ticks_per_second) as u64)
                && 1 <= spec_tick_factor(ticks_per_second) <= 1_000_000_000,
            Some(Fault::Call(_)) => r matches Err(e) && e.spec_fault() == tick_fault(
                ticks_per_second,
            )->Some_0,
            Some(Fault::FrequencyTooHigh) => r == Err::<u64, Error>(Error::ClkFreqTooHigh),
        },
{
    if ticks_per_second <= 0 {
        return Err(Error::SystemError("sysconf(_SC_CLK_TCK)", errno()));
    }
    if ticks_per_second > MAX_TICKS_PER_SECOND {
        return Err(Error::ClkFreqTooHigh);
    }
    let factor: i64 = 1_000_000_000 / ticks_per_second;
    assert(1 <= 1_000_000_000int / (ticks_per_second as int) <= 1_000_000_000)
        by (nonlinear_arith)
        requires
            1 <= ticks_per_second <= 1_000_000_000,
    ;
    Ok(factor as u64)
}

/// The tick counts that `times` fills in.
#[derive(Debug, Clone, Copy, PartialEq, Eq)]
pub struct Tms {
    /// CPU time of the process in user mode.
    pub utime: i64,
    /// CPU time of the process in kernel mode.
    pub stime: i64,
    /// CPU time in user mode of the children that were waited for.
    pub cutime: i64,
    /// CPU time in kernel mode of the children that were waited for.
    pub cstime: i64,
}

/// What one sample of the process's times hands back.
#[derive(Debug, Clone, Copy, PartialEq, Eq)]
pub struct TimesReading {
    /// The return value of `times`: the ticks since some point in the past,
    /// or -1 where the call failed.
    pub elapsed: i64,
    /// The tick counts that `times` filled in.
    pub tms: Tms,
    /// The return value of `sysconf(_SC_CLK_TCK)`: the ticks per second.
    pub ticks_per_second: i64,
}

/// The outcome of `times`: the elapsed ticks and the counts it filled in,
/// unless the call returned -1.
pub fn times(elapsed: i64, tms: Tms) -> (r: Result<(i64, Tms), Error>)
    ensures
        elapsed != -1 ==> r == Ok::<(i64, Tms), Error>((elapsed, tms)),
        elapsed == -1 ==> (r matches Err(e) && e.spec_fault() == Fault::Call("times")),
{
    if elapsed == -1 {
        return Err(Error::SystemError("times", errno()));
    }
    Ok((elapsed, tms))
}

/// The span of `ticks` ticks, read as unsigned, of `factor` nanoseconds
/// each.
pub open spec fn spec_ticks_to_duration(ticks: i64, factor: nat) -> Duration {
    Duration::from_total(spec_unsigned(ticks) * factor)
}

/// The span of `ticks` ticks, read as unsigned, of `factor` nanoseconds
/// each.
pub fn ticks_to_duration(ticks: i64, factor: u64) -> (d: Duration)
    requires
        spec_unsigned(ticks) * factor <= max_nanos(),
    ensures
        d == spec_ticks_to_duration(ticks, factor as nat),
        d.wf(),
        d@ == spec_unsigned(ticks) * factor,
{
    let d = Duration::from_ticks(unsigned(ticks), factor);
    proof {
        d.lemma_view_bounded();
    }
    d
}

/// At a factor of up to a thousand million nanoseconds per tick, every tick
/// count gives a span within the range of the type.
pub proof fn lemma_ticks_fit(ticks: i64, factor: nat)
    requires
        factor <= 1_000_000_000,
    ensures
        spec_unsigned(ticks) * factor <= max_nanos(),
{
    assert(spec_unsigned(ticks) * factor <= 0xffff_ffff_ffff_ffff * 1_000_000_000)
        by (nonlinear_arith)
        requires
            spec_unsigned(ticks) <= 0xffff_ffff_ffff_ffff,
            factor <= 1_000_000_000,
    ;
}

impl TimesReading {
    /// What the sample reports as gone wrong: a failed `times` first, then
    /// what is wrong with the tick frequency.
    pub open spec fn fault(self) -> Option<Fault> {
        if self.elapsed == -1 {
            Some(Fault::Call("times"))
        } else {
            tick_fault(self.ticks_per_second)
        }
    }

    /// The nanoseconds per tick of a sample without a fault.
    pub open spec fn factor(self) -> nat {
        spec_tick_factor(self.ticks_per_second)
    }

    /// The user-mode ticks of the process and of its children together.
    pub open spec fn user_ticks(self) -> int {
        self.tms.utime + self.tms.cutime
    }

    /// The kernel-mode ticks of the process and of its children together.
    pub open spec fn system_ticks(self) -> int {
        self.tms.stime + self.tms.cstime
    }

    /// Where the sample reports no fault, the user-mode ticks together stay
    /// within the range of a tick count.
    pub open spec fn user_representable(self) -> bool {
        self.fault() is None ==> i64::MIN <= self.user_ticks() <= i64::MAX
    }

    /// Where the sample reports no fault, the kernel-mode ticks together stay
    /// within the range of a tick count.
    pub open spec fn system_representable(self) -> bool {
        self.fault() is None ==> i64::MIN <= self.system_ticks() <= i64::MAX
    }

    /// The wall-clock instant of the sample.
    pub open spec fn real_instant(self) -> Duration {
        spec_ticks_to_duration(self.elapsed, self.factor())
    }

    /// The instant of the sample on the timeline of user-mode CPU time.
    pub open spec fn user_instant(self) -> Duration {
        spec_ticks_to_duration(self.user_ticks() as i64, self.factor())
    }

    /// The instant of the sample on the timeline of kernel-mode CPU time.
    pub open spec fn system_instant(self) -> Duration {
        spec_ticks_to_duration(self.system_ticks() as i64, self.factor())
    }

    /// The nanoseconds per tick, or the fault that the sample reports.
    pub fn nanos_per_tick(&self) -> (r: Result<u64, Error>)
        ensures
            match self.fault() {
                None => r == Ok::<u64, Error>(self.factor() as u64) && 1 <= self.factor()
                    <= 1_000_000_000,
                Some(f) => r matches Err(e) && e.spec_fault() == f,
            },
    {
        match times(self.elapsed, self.tms) {
            Err(e) => Err(e),
            Ok(_) => tick_factor(self.ticks_per_second),
        }
    }

    /// Whether the user-mode ticks together stay within the range of a tick
    /// count, where the sample reports no fault.
    pub fn is_user_representable(&self) -> (b: bool)
        ensures
            b == self.user_representable(),
    {
        if self.elapsed == -1 || self.ticks_per_second <= 0 || self.ticks_per_second
            > MAX_TICKS_PER_SECOND {
            return true;
        }
        self.tms.utime.checked_add(self.tms.cutime).is_some()
    }

    /// Whether the kernel-mode ticks together stay within the range of a
    /// tick count, where the sample reports no fault.
    pub fn is_system_representable(&self) -> (b: bool)
        ensures
            b == self.system_representable(),
    {
        if self.elapsed == -1 || self.ticks_per_second <= 0 || self.ticks_per_second
            > MAX_TICKS_PER_SECOND {
            return true;
        }
        self.tms.stime.checked_add(self.tms.cstime).is_some()
    }
}

/// The wall-clock time of the process: the elapsed ticks that `times`
/// returns.
pub struct ProcessRealCPUClock;

impl Clock for ProcessRealCPUClock {
    type Output = TimePoint;

    type Reading = TimesReading;

    open spec fn representable(reading: TimesReading) -> bool {
        true
    }

    open spec fn fault(reading: TimesReading) -> Option<Fault> {
        reading.fault()
    }

    open spec fn instant(reading: TimesReading) -> TimePoint {
        TimePoint(reading.real_instant())
    }

    fn is_representable(reading: &TimesReading) -> (b: bool) {
        true
    }

    fn try_now(reading: TimesReading) -> (r: Result<TimePoint, Error>) {
        let factor = reading.nanos_per_tick()?;
        proof {
            lemma_ticks_fit(reading.elapsed, factor as nat);
        }
        Ok(TimePoint(ticks_to_duration(reading.elapsed, factor)))
    }
}

/// The CPU time that the process and the children it waited for spent in
/// user mode.
pub struct ProcessUserCPUClock;

impl Clock for ProcessUserCPUClock {
    type Output = TimePoint;

    type Reading = TimesReading;

    open spec fn representable(reading: TimesReading) -> bool {
        reading.user_representable()
    }

    open spec fn fault(reading: TimesReading) -> Option<Fault> {
        reading.fault()
    }

    open spec fn instant(reading: TimesReading) -> TimePoint {
        TimePoint(reading.user_instant())
    }

    fn is_representable(reading: &TimesReading) -> (b: bool) {
        reading.is_user_representable()
    }

    fn try_now(reading: TimesReading) -> (r: Result<TimePoint, Error>) {
        let factor = reading.nanos_per_tick()?;
        let ticks: i64 = reading.tms.utime + reading.tms.cutime;
        proof {
            lemma_ticks_fit(ticks, factor as nat);
        }
        Ok(TimePoint(ticks_to_duration(ticks, factor)))
    }
}

/// The CPU time that the process and the children it waited for spent in
/// kernel mode.
pub struct ProcessSystemCPUClock;

impl Clock for ProcessSystemCPUClock {
    type Output = TimePoint;

    type Reading = TimesReading;

    open spec fn representable(reading: TimesReading) -> bool {
        reading.system_representable()
    }

    open spec fn fault(reading: TimesReading) -> Option<Fault> {
        reading.fault()
    }

    open spec fn instant(reading: TimesReading) -> TimePoint {
        TimePoint(reading.system_instant())
    }

    fn is_representable(reading: &TimesReading) -> (b: bool) {
        reading.is_system_representable()
    }

    fn try_now(reading: TimesReading) -> (r: Result<TimePoint, Error>) {
        let factor = reading.nanos_per_tick()?;
        let ticks: i64 = reading.tms.stime + reading.tms.cstime;
        proof {
            lemma_ticks_fit(ticks, factor as nat);
        }
        Ok(TimePoint(ticks_to_duration(ticks, factor)))
    }
}

/// Wall-clock, user-mode and kernel-mode time of the process, all three from
/// one sample.
pub struct ProcessCPUClock;

impl Clock for ProcessCPUClock {
    type Output = ProcessTimePoint;

    type Reading = TimesReading;

    open spec fn representable(reading: TimesReading) -> bool {
        reading.user_representable() && reading.system_representable()
    }

    open spec fn fault(reading: TimesReading) -> Option<Fault> {
        reading.fault()
    }

    open spec fn instant(reading: TimesReading) -> ProcessTimePoint {
        ProcessTimePoint { real: reading.real_instant(), user: reading.user_instant(), system: reading.system_instant() }
    }

    fn is_representable(reading: &TimesReading) -> (b: bool) {
        reading.is_user_representable() && reading.is_system_representable()
    }

    fn try_now(reading: TimesReading) -> (r: Result<ProcessTimePoint, Error>) {
        let factor = reading.nanos_per_tick()?;
        let user: i64 = reading.tms.utime + reading.tms.cutime;
        let system: i64 = reading.tms.stime + reading.tms.cstime;
        proof {
            lemma_ticks_fit(reading.elapsed, factor as nat);
            lemma_ticks_fit(user, factor as nat);
            lemma_ticks_fit(system, factor as nat);
        }
        Ok(
            ProcessTimePoint {
                real: ticks_to_duration(reading.elapsed, factor),
                user: ticks_to_duration(user, factor),
                system: ticks_to_duration(system, factor),
            },
        )
    }
}

/// The identifier of the calling thread's CPU-time clock, from what
/// `pthread_getcpuclockid` returned and filled in. Where the platform has one
/// fixed identifier for that clock, the lookup cannot fail: its status is
/// zero.
pub fn get_thread_clock_id(status: i32, clock_id: i32) -> (r: Result<i32, Error>)
    ensures
        status == 0 ==> r == Ok::<i32, Error>(clock_id),
        status != 0 ==> (r matches Err(e) && e.spec_fault() == Fault::Call(
            "pthread_getcpuclockid",
        )),
{
    if status != 0 {
        return Err(Error::SystemError("pthread_getcpuclockid", errno()));
    }
    Ok(clock_id)
}

/// The CPU time of the calling thread, read by `clock_gettime` on the clock
/// that [`get_thread_clock_id`] names.
pub struct ThreadClock;

impl Clock for ThreadClock {
    type Output = TimePoint;

    type Reading = TimespecReading;

    open spec fn representable(reading: TimespecReading) -> bool {
        reading.representable()
    }

    open spec fn fault(reading: TimespecReading) -> Option<Fault> {
        reading.fault()
    }

    open spec fn instant(reading: TimespecReading) -> TimePoint {
        reading.instant()
    }

    fn is_representable(reading: &TimespecReading) -> (b: bool) {
        reading.is_representable()
    }

    fn try_now(reading: TimespecReading) -> (r: Result<TimePoint, Error>) {
        reading.time_point()
    }
}

/// Reading a timespec keeps the order of time: of two filled timespecs in
/// normal form, the one that holds the later time gives the later instant,
/// and a strictly later time a strictly later instant.
pub proof fn lemma_timespec_order(earlier: TimespecReading, later: TimespecReading)
    requires
        earlier.status == 0,
        later.status == 0,
        0 <= earlier.sec,
        0 <= earlier.nsec < 1_000_000_000,
        0 <= later.sec,
        0 <= later.nsec < 1_000_000_000,
        earlier.sec < later.sec || (earlier.sec == later.sec && earlier.nsec <= later.nsec),
    ensures
        earlier.representable(),
        later.representable(),
        earlier.instant()@ <= later.instant()@,
        earlier.sec != later.sec || earlier.nsec != later.nsec ==> earlier.instant()@
            < later.instant()@,
{
    Duration::lemma_from_total(earlier.nanos());
    Duration::lemma_from_total(later.nanos());
}

/// Converting ticks keeps their order: at one tick frequency, the larger of
/// two counts that are not negative gives the longer span.
pub proof fn lemma_ticks_order(earlier: i64, later: i64, factor: nat)
    requires
        0 <= earlier <= later,
        factor <= 1_000_000_000,
    ensures
        spec_ticks_to_duration(earlier, factor)@ <= spec_ticks_to_duration(later, factor)@,
        spec_ticks_to_duration(earlier, factor)@ == earlier * factor,
        spec_ticks_to_duration(later, factor)@ == later * factor,
{
    assert(earlier * factor <= later * factor <= 0x7fff_ffff_ffff_ffff * 1_000_000_000)
        by (nonlinear_arith)
        requires
            0 <= earlier <= later <= 0x7fff_ffff_ffff_ffff,
            0 <= factor <= 1_000_000_000,
    ;
    Duration::lemma_from_total((earlier * factor) as nat);
    Duration::lemma_from_total((later * factor) as nat);
}

} // verus!

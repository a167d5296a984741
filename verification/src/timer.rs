//! Stopwatches: start, stop and resume over the instants of one clock.
//!
//! A timer never reads a clock itself. Its owner samples the clock and hands
//! the instant in, so that what a timer reports is a function of the instants
//! it was shown.

use crate::duration::Duration;
use crate::types::{Instant, ProcessDuration, ProcessTimePoint, TimePoint};
use core::marker::PhantomData;
use std::rc::Rc;
use vstd::prelude::*;

verus! {

/// What a stopwatch holds: while it runs, the instant from which its elapsed
/// time counts; while it is stopped, the time it has accumulated.
#[derive(Debug)]
pub enum TimerState<T, D> {
    /// Running since `reference`, which lies before the instant of the last
    /// start by whatever had been accumulated at a resume.
    Running { reference: T },
    /// Stopped, with `accumulated` on the dial.
    Stopped { accumulated: D },
}

impl<T: Copy, D: Copy> Clone for TimerState<T, D> {
    fn clone(&self) -> (copy: Self)
        ensures
            copy == *self,
    {
        *self
    }
}

impl<T: Copy, D: Copy> Copy for TimerState<T, D> {

}

impl<T: Instant> TimerState<T, T::Span> {
    /// Whether `now` can be measured against this state: it reaches the
    /// reference of a running timer, or the instant that lies the accumulated
    /// time of a stopped timer after the clock's own reference.
    pub open spec fn accepts(self, now: T) -> bool {
        match self {
            TimerState::Running { reference } => now.reaches(reference),
            TimerState::Stopped { accumulated } => now.reaches(T::spec_from_duration(accumulated)),
        }
    }

    /// The elapsed time at `now`.
    pub open spec fn elapsed(self, now: T) -> T::Span {
        match self {
            TimerState::Running { reference } => now.spec_duration_since(reference),
            TimerState::Stopped { accumulated } => accumulated,
        }
    }

    /// The state after `start` at `now`: a stopped timer runs afresh from
    /// `now`, a running one is left alone.
    pub open spec fn started(self, now: T) -> Self {
        match self {
            TimerState::Running { .. } => self,
            TimerState::Stopped { .. } => TimerState::Running { reference: now },
        }
    }

    /// The state after `stop` at `now`: a running timer keeps what has
    /// elapsed, a stopped one is left alone.
    pub open spec fn stopped(self, now: T) -> Self {
        match self {
            TimerState::Running { reference } => TimerState::Stopped {
                accumulated: now.spec_duration_since(reference),
            },
            TimerState::Stopped { .. } => self,
        }
    }

    /// The state after `resume` at `now`: a stopped timer runs from the
    /// instant that lies its accumulated time before `now`, a running one is
    /// left alone.
    pub open spec fn resumed(self, now: T) -> Self {
        match self {
            TimerState::Running { .. } => self,
            TimerState::Stopped { accumulated } => TimerState::Running {
                reference: T::spec_from_duration(
                    now.spec_duration_since(T::spec_from_duration(accumulated)),
                ),
            },
        }
    }
}

/// A stopwatch over the instants of one clock.
pub struct Timer<T: Instant> {
    state: TimerState<T, T::Span>,
}

impl<T: Instant> View for Timer<T> {
    type V = TimerState<T, T::Span>;

    closed spec fn view(&self) -> TimerState<T, T::Span> {
        self.state
    }
}

impl<T: Instant> Timer<T> {
    /// A timer that runs from `now`.
    pub fn new(now: T) -> (timer: Self)
        ensures
            timer@ == (TimerState::<T, T::Span>::Running { reference: now }),
    {
        Timer { state: TimerState::Running { reference: now } }
    }

    /// What the timer holds.
    pub fn state(&self) -> (state: TimerState<T, T::Span>)
        ensures
            state == self@,
    {
        self.state
    }

    /// Whether the timer is running.
    pub fn is_running(&self) -> (b: bool)
        ensures
            b == (self@ is Running),
    {
        match self.state {
            TimerState::Running { .. } => true,
            TimerState::Stopped { .. } => false,
        }
    }

    /// Whether the timer is stopped.
    pub fn is_stopped(&self) -> (b: bool)
        ensures
            b == (self@ is Stopped),
    {
        !self.is_running()
    }

    /// Whether `now` can be measured against what the timer holds.
    pub fn accepts(&self, now: T) -> (b: bool)
        ensures
            b == self@.accepts(now),
    {
        match self.state {
            TimerState::Running { reference } => now.has_reached(reference),
            TimerState::Stopped { accumulated } => now.has_reached(T::from_duration(accumulated)),
        }
    }

    /// The elapsed time at `now`: while running, the span from the reference
    /// to `now`; while stopped, the accumulated time, whatever `now` is. The
    /// timer is left as it is.
    pub fn elapsed(&self, now: T) -> (span: T::Span)
        requires
            self@ is Running ==> self@.accepts(now),
        ensures
            span == self@.elapsed(now),
    {
        match self.state {
            TimerState::Running { reference } => now.duration_since(reference),
            TimerState::Stopped { accumulated } => accumulated,
        }
    }

    /// Starts a stopped timer afresh at `now`, dropping what it had
    /// accumulated. A running timer is left alone.
    pub fn start(&mut self, now: T)
        ensures
            final(self)@ == old(self)@.started(now),
    {
        if self.is_stopped() {
            self.state = TimerState::Running { reference: now };
        }
    }

    /// Stops a running timer at `now`, keeping what has elapsed. A stopped
    /// timer is left alone.
    pub fn stop(&mut self, now: T)
        requires
            old(self)@ is Running ==> old(self)@.accepts(now),
        ensures
            final(self)@ == old(self)@.stopped(now),
    {
        match self.state {
            TimerState::Running { reference } => {
                self.state = TimerState::Stopped { accumulated: now.duration_since(reference) };
            },
            TimerState::Stopped { .. } => {},
        }
    }

    /// Sets a stopped timer running again at `now`, so that its elapsed time
    /// goes on from what it had accumulated. A running timer is left alone.
    pub fn resume(&mut self, now: T)
        requires
            old(self)@ is Stopped ==> old(self)@.accepts(now),
        ensures
            final(self)@ == old(self)@.resumed(now),
    {
        match self.state {
            TimerState::Running { .. } => {},
            TimerState::Stopped { accumulated } => {
                let displaced = now.duration_since(T::from_duration(accumulated));
                self.state = TimerState::Running { reference: T::from_duration(displaced) };
            },
        }
    }
}

/// A timer over the wall-clock time of the system.
pub type SystemTimer = Timer<TimePoint>;

/// A timer over a steady clock.
pub type SteadyTimer = Timer<TimePoint>;

/// A timer over the clock of highest resolution.
pub type HighResolutionTimer = Timer<TimePoint>;

/// A timer over the wall-clock time of the process.
pub type ProcessRealCPUTimer = Timer<TimePoint>;

/// A timer over the user-mode CPU time of the process.
pub type ProcessUserCPUTimer = Timer<TimePoint>;

/// A timer over the kernel-mode CPU time of the process.
pub type ProcessSystemCPUTimer = Timer<TimePoint>;

/// A timer over wall-clock, user-mode and kernel-mode time of the process at
/// once.
pub type ProcessCPUTimer = Timer<ProcessTimePoint>;

/// A stopwatch over the CPU time of one thread. The instants it is shown have
/// to come from the thread that owns it, so the type can neither be sent to
/// another thread nor be shared with one.
pub struct ThreadTimer {
    inner: Timer<TimePoint>,
    _no_send: PhantomData<Rc<()>>,
}

impl View for ThreadTimer {
    type V = TimerState<TimePoint, Duration>;

    closed spec fn view(&self) -> TimerState<TimePoint, Duration> {
        self.inner@
    }
}

impl ThreadTimer {
    /// A timer that runs from `now`.
    pub fn new(now: TimePoint) -> (timer: Self)
        ensures
            timer@ == (TimerState::<TimePoint, Duration>::Running { reference: now }),
    {
        ThreadTimer { inner: Timer::new(now), _no_send: PhantomData }
    }

    /// What the timer holds.
    pub fn state(&self) -> (state: TimerState<TimePoint, Duration>)
        ensures
            state == self@,
    {
        self.inner.state()
    }

    /// Whether the timer is running.
    pub fn is_running(&self) -> (b: bool)
        ensures
            b == (self@ is Running),
    {
        self.inner.is_running()
    }

    /// Whether the timer is stopped.
    pub fn is_stopped(&self) -> (b: bool)
        ensures
            b == (self@ is Stopped),
    {
        self.inner.is_stopped()
    }

    /// Whether `now` can be measured against what the timer holds.
    pub fn accepts(&self, now: TimePoint) -> (b: bool)
        ensures
            b == self@.accepts(now),
    {
        self.inner.accepts(now)
    }

    /// The elapsed CPU time at `now`: while running, the span from the
    /// reference to `now`; while stopped, the accumulated time, whatever
    /// `now` is. The timer is left as it is.
    pub fn elapsed(&self, now: TimePoint) -> (span: Duration)
        requires
            self@ is Running ==> self@.accepts(now),
        ensures
            span == self@.elapsed(now),
            self@ matches TimerState::Running { reference } ==> span@ == now@ - reference@,
    {
        proof {
            use_type_invariant(&now.0);
            now.0.lemma_view_bounded();
            if let TimerState::Running { reference } = self@ {
                Duration::lemma_from_total((now@ - reference@) as nat);
            }
        }
        self.inner.elapsed(now)
    }

    /// Starts a stopped timer afresh at `now`, dropping what it had
    /// accumulated. A running timer is left alone.
    pub fn start(&mut self, now: TimePoint)
        ensures
            final(self)@ == old(self)@.started(now),
    {
        self.inner.start(now);
    }

    /// Stops a running timer at `now`, keeping what has elapsed. A stopped
    /// timer is left alone.
    pub fn stop(&mut self, now: TimePoint)
        requires
            old(self)@ is Running ==> old(self)@.accepts(now),
        ensures
            final(self)@ == old(self)@.stopped(now),
    {
        self.inner.stop(now);
    }

    /// Sets a stopped timer running again at `now`, so that its elapsed time
    /// goes on from what it had accumulated. A running timer is left alone.
    pub fn resume(&mut self, now: TimePoint)
        requires
            old(self)@ is Stopped ==> old(self)@.accepts(now),
        ensures
            final(self)@ == old(self)@.resumed(now),
    {
        self.inner.resume(now);
    }
}

/// While a timer is stopped, reading it does not advance it: its elapsed time
/// is the accumulated time at whatever instant it is read.
pub proof fn lemma_stopped_elapsed_is_idempotent<T: Instant>(
    state: TimerState<T, T::Span>,
    first: T,
    second: T,
)
    requires
        state is Stopped,
    ensures
        state.elapsed(first) == state->accumulated,
        state.elapsed(second) == state.elapsed(first),
{
}

/// While a timer runs on a single timeline, its elapsed time grows strictly
/// with the instant at which it is read.
pub proof fn lemma_running_elapsed_increases(
    state: TimerState<TimePoint, Duration>,
    first: TimePoint,
    second: TimePoint,
)
    requires
        state is Running,
        first.wf(),
        second.wf(),
        state.accepts(first),
        first@ < second@,
    ensures
        state.accepts(second),
        state.elapsed(first)@ < state.elapsed(second)@,
{
    let reference = state->reference;
    first.0.lemma_view_bounded();
    second.0.lemma_view_bounded();
    Duration::lemma_from_total((first@ - reference@) as nat);
    Duration::lemma_from_total((second@ - reference@) as nat);
}

/// While a timer runs on the three timelines of a process, each part of its
/// elapsed time grows with its own instant: a later sample never shows less,
/// and the wall-clock part shows more once the wall-clock instant has moved.
pub proof fn lemma_running_process_elapsed_increases(
    state: TimerState<ProcessTimePoint, ProcessDuration>,
    first: ProcessTimePoint,
    second: ProcessTimePoint,
)
    requires
        state is Running,
        first.wf(),
        second.wf(),
        state.accepts(first),
        second.reaches(first),
    ensures
        state.accepts(second),
        state.elapsed(first).real@ <= state.elapsed(second).real@,
        state.elapsed(first).user@ <= state.elapsed(second).user@,
        state.elapsed(first).system@ <= state.elapsed(second).system@,
        first.real@ < second.real@ ==> state.elapsed(first).real@ < state.elapsed(second).real@,
{
    let reference = state->reference;
    first.real.lemma_view_bounded();
    first.user.lemma_view_bounded();
    first.system.lemma_view_bounded();
    second.real.lemma_view_bounded();
    second.user.lemma_view_bounded();
    second.system.lemma_view_bounded();
    Duration::lemma_from_total((first.real@ - reference.real@) as nat);
    Duration::lemma_from_total((first.user@ - reference.user@) as nat);
    Duration::lemma_from_total((first.system@ - reference.system@) as nat);
    Duration::lemma_from_total((second.real@ - reference.real@) as nat);
    Duration::lemma_from_total((second.user@ - reference.user@) as nat);
    Duration::lemma_from_total((second.system@ - reference.system@) as nat);
}

/// A timer stopped at `stop` can be resumed at every instant that reaches
/// `stop`.
pub proof fn lemma_stopped_accepts_later<T: Instant>(
    state: TimerState<T, T::Span>,
    stop: T,
    later: T,
)
    requires
        state matches TimerState::Running { reference } && reference.wf(),
        stop.wf(),
        state.accepts(stop),
        later.reaches(stop),
    ensures
        state.stopped(stop).accepts(later),
{
    let reference = state->reference;
    stop.lemma_span_within(reference);
    later.lemma_reaches_order(
        stop,
        T::spec_from_duration(stop.spec_duration_since(reference)),
    );
}

/// Resuming folds the accumulated time into the new reference: read at the
/// instant of the resume the timer shows what it had accumulated, and read at
/// a later instant it shows that and the time since the resume.
pub proof fn lemma_resume_keeps_accumulated<T: Instant>(
    state: TimerState<T, T::Span>,
    now: T,
    later: T,
)
    requires
        state matches TimerState::Stopped { accumulated } && T::span_wf(accumulated),
        now.wf(),
        later.wf(),
        state.accepts(now),
        later.reaches(now),
    ensures
        state.resumed(now).accepts(now),
        state.resumed(now).elapsed(now) == state->accumulated,
        state.resumed(now).accepts(later),
        state.resumed(now).elapsed(later) == T::span_sum(
            state->accumulated,
            later.spec_duration_since(now),
        ),
{
    T::lemma_displaced_reference(later, now, state->accumulated);
}

/// On a single timeline a resumed timer never shows less than it had
/// accumulated: read at `later` it shows the accumulated time and the time
/// since the resume, in nanoseconds.
pub proof fn lemma_resume_keeps_accumulated_nanos(
    state: TimerState<TimePoint, Duration>,
    now: TimePoint,
    later: TimePoint,
)
    requires
        state matches TimerState::Stopped { accumulated } && accumulated.wf(),
        now.wf(),
        later.wf(),
        state.accepts(now),
        now@ <= later@,
    ensures
        state.resumed(now).accepts(later),
        state.resumed(now).elapsed(later)@ == state->accumulated@ + (later@ - now@),
        state.resumed(now).elapsed(later)@ >= state->accumulated@,
{
    lemma_resume_keeps_accumulated::<TimePoint>(state, now, later);
    later.0.lemma_view_bounded();
    Duration::lemma_from_total((later@ - now@) as nat);
    Duration::lemma_from_total((state->accumulated@ + (later@ - now@)) as nat);
}

/// Stop and resume compose: a timer started at `t0`, stopped at `t1`,
/// resumed at `t2` and stopped at `t3` holds the two stretches during which
/// it ran, laid end to end, and nothing of the time between `t1` and `t2`.
/// This holds for every `t2` that the stopped timer accepts; the instants
/// that reach `t1` are among them.
pub proof fn lemma_stop_resume_accumulates<T: Instant>(t0: T, t1: T, t2: T, t3: T)
    requires
        t0.wf(),
        t1.wf(),
        t2.wf(),
        t3.wf(),
        t1.reaches(t0),
        t2.reaches(T::spec_from_duration(t1.spec_duration_since(t0))),
        t3.reaches(t2),
    ensures
        ({
            let started = TimerState::<T, T::Span>::Running { reference: t0 };
            let resumed = started.stopped(t1).resumed(t2);
            &&& started.accepts(t1)
            &&& started.stopped(t1).accepts(t2)
            &&& resumed is Running
            &&& resumed.accepts(t3)
            &&& resumed.stopped(t3) == (TimerState::<T, T::Span>::Stopped {
                accumulated: T::span_sum(
                    t1.spec_duration_since(t0),
                    t3.spec_duration_since(t2),
                ),
            })
        }),
{
    t1.lemma_duration_since_wf(t0);
    T::lemma_displaced_reference(t3, t2, t1.spec_duration_since(t0));
}

/// On a single timeline the law of stop and resume reads in nanoseconds: the
/// timer holds `(t1 - t0) + (t3 - t2)`.
pub proof fn lemma_stop_resume_accumulates_nanos(
    t0: TimePoint,
    t1: TimePoint,
    t2: TimePoint,
    t3: TimePoint,
)
    requires
        t0.wf(),
        t1.wf(),
        t2.wf(),
        t3.wf(),
        t0@ <= t1@,
        t1@ - t0@ <= t2@,
        t2@ <= t3@,
    ensures
        ({
            let started = TimerState::<TimePoint, Duration>::Running { reference: t0 };
            let end = started.stopped(t1).resumed(t2).stopped(t3);
            &&& end is Stopped
            &&& end->accumulated.wf()
            &&& end->accumulated@ == (t1@ - t0@) + (t3@ - t2@)
        }),
{
    t1.0.lemma_view_bounded();
    t3.0.lemma_view_bounded();
    Duration::lemma_from_total((t1@ - t0@) as nat);
    Duration::lemma_from_total((t3@ - t2@) as nat);
    lemma_stop_resume_accumulates::<TimePoint>(t0, t1, t2, t3);
    Duration::lemma_from_total(((t1@ - t0@) + (t3@ - t2@)) as nat);
}

/// Starting a stopped timer drops what it had accumulated: stopped again, it
/// holds the time since that start and nothing else.
pub proof fn lemma_start_discards_accumulated<T: Instant>(
    state: TimerState<T, T::Span>,
    start: T,
    stop: T,
)
    requires
        state is Stopped,
        stop.reaches(start),
    ensures
        state.started(start).accepts(stop),
        state.started(start).stopped(stop) == (TimerState::<T, T::Span>::Stopped {
            accumulated: stop.spec_duration_since(start),
        }),
{
}

} // verus!

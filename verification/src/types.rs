//! Errors, instants and the spans between them, and the clock capability.

use crate::duration::{max_nanos, Duration};
use core::cmp::Ordering;
use vstd::prelude::*;
use vstd::std_specs::convert::FromSpec;
use vstd::std_specs::ops::SubSpec;

verus! {

/// What can go wrong when a clock is read.
#[derive(Debug, Clone, Copy, PartialEq, Eq)]
pub enum Error {
    /// A call into the operating system failed: the call's name and the
    /// platform's error code.
    SystemError(&'static str, i32),
    /// The platform counts more CPU ticks per second than there are
    /// nanoseconds in one.
    ClkFreqTooHigh,
}

/// The kind of an [`Error`]: what failed, without the platform's code.
#[derive(Debug, Clone, Copy, PartialEq, Eq)]
pub enum Fault {
    /// The named call into the operating system failed.
    Call(&'static str),
    /// The tick frequency cannot be turned into nanoseconds per tick.
    FrequencyTooHigh,
}

impl Error {
    /// The kind of this error.
    pub open spec fn spec_fault(self) -> Fault {
        match self {
            Error::SystemError(call, _) => Fault::Call(call),
            Error::ClkFreqTooHigh => Fault::FrequencyTooHigh,
        }
    }

    /// The kind of this error.
    pub fn fault(&self) -> (f: Fault)
        ensures
            f == self.spec_fault(),
    {
        match self {
            Error::SystemError(call, _) => Fault::Call(call),
            Error::ClkFreqTooHigh => Fault::FrequencyTooHigh,
        }
    }
}

/// A source of instants, seen from the side of its readings: it says what the
/// raw outcome of one sample of the platform's primitive means.
pub trait Clock {
    /// The instants of this clock.
    type Output;

    /// What one sample of the platform's primitive hands back.
    type Reading;

    /// Whether the reading stays within what an instant can represent.
    spec fn representable(reading: Self::Reading) -> bool;

    /// What the reading reports as gone wrong, if anything.
    spec fn fault(reading: Self::Reading) -> Option<Fault>;

    /// The instant that a reading without a fault stands for.
    spec fn instant(reading: Self::Reading) -> Self::Output;

    /// Whether the reading stays within what an instant can represent.
    fn is_representable(reading: &Self::Reading) -> (b: bool)
        ensures
            b == Self::representable(*reading),
    ;

    /// The instant of a reading, or the error it reports. The code of a
    /// failed call is the platform's last error code at the time of this
    /// call.
    fn try_now(reading: Self::Reading) -> (r: Result<Self::Output, Error>)
        requires
            Self::representable(reading),
        ensures
            match Self::fault(reading) {
                None => r == Ok::<Self::Output, Error>(Self::instant(reading)),
                Some(f) => r matches Err(e) && e.spec_fault() == f,
            },
    ;

    /// The instant of a reading that reports no fault.
    fn now(reading: Self::Reading) -> (t: Self::Output)
        requires
            Self::representable(reading),
            Self::fault(reading) is None,
        ensures
            t == Self::instant(reading),
    {
        Self::try_now(reading).expect("Failed to access the clock.")
    }
}

/// An instant on the timeline of some clock, together with the spans between
/// two such instants. A span can be read as the instant that lies that far
/// after the clock's reference, and back, without loss.
pub trait Instant: Copy {
    /// The span between two instants.
    type Span: Copy;

    /// Validity of an instant.
    spec fn wf(self) -> bool;

    /// Validity of a span.
    spec fn span_wf(span: Self::Span) -> bool;

    /// Whether `self` lies at or after `earlier`, in every component.
    spec fn reaches(self, earlier: Self) -> bool;

    /// The span from `earlier` to `self`.
    spec fn spec_duration_since(self, earlier: Self) -> Self::Span;

    /// The instant that lies `span` after the clock's reference.
    spec fn spec_from_duration(span: Self::Span) -> Self;

    /// The span from the clock's reference to `self`.
    spec fn spec_into_duration(self) -> Self::Span;

    /// The two spans laid end to end.
    spec fn span_sum(first: Self::Span, second: Self::Span) -> Self::Span;

    /// Whether `self` lies at or after `earlier`, in every component.
    fn has_reached(self, earlier: Self) -> (b: bool)
        ensures
            b == self.reaches(earlier),
    ;

    /// The span from `earlier` to `self`.
    fn duration_since(self, earlier: Self) -> (span: Self::Span)
        requires
            self.reaches(earlier),
        ensures
            span == self.spec_duration_since(earlier),
    ;

    /// The instant that lies `span` after the clock's reference.
    fn from_duration(span: Self::Span) -> (t: Self)
        ensures
            t == Self::spec_from_duration(span),
    ;

    /// The span from the clock's reference to `self`.
    fn into_duration(self) -> (span: Self::Span)
        ensures
            span == self.spec_into_duration(),
    ;

    /// Reading a span as an instant and back gives the span again.
    proof fn lemma_span_round_trip(span: Self::Span)
        ensures
            Self::spec_from_duration(span).spec_into_duration() == span,
            Self::span_wf(span) ==> Self::spec_from_duration(span).wf(),
    ;

    /// Reading an instant as a span and back gives the instant again.
    proof fn lemma_instant_round_trip(self)
        ensures
            Self::spec_from_duration(self.spec_into_duration()) == self,
            self.wf() ==> Self::span_wf(self.spec_into_duration()),
    ;

    /// Every instant reaches itself, and reaching is transitive.
    proof fn lemma_reaches_order(self, middle: Self, earlier: Self)
        ensures
            self.reaches(self),
            self.reaches(middle) && middle.reaches(earlier) ==> self.reaches(earlier),
    ;

    /// The span between two valid instants is valid.
    proof fn lemma_duration_since_wf(self, earlier: Self)
        requires
            self.wf(),
            earlier.wf(),
            self.reaches(earlier),
        ensures
            Self::span_wf(self.spec_duration_since(earlier)),
    ;

    /// An instant reaches the instant that lies, after the clock's reference,
    /// as far as the instant itself lies after any earlier one.
    proof fn lemma_span_within(self, earlier: Self)
        requires
            self.wf(),
            self.reaches(earlier),
        ensures
            self.reaches(Self::spec_from_duration(self.spec_duration_since(earlier))),
    ;

    /// Displacing `now` backward by `accumulated` gives a reference from which
    /// `now` lies exactly `accumulated` away, and from which any later instant
    /// lies `accumulated` and the time since `now` away.
    proof fn lemma_displaced_reference(later: Self, now: Self, accumulated: Self::Span)
        requires
            later.wf(),
            now.wf(),
            Self::span_wf(accumulated),
            now.reaches(Self::spec_from_duration(accumulated)),
            later.reaches(now),
        ensures
            ({
                let reference = Self::spec_from_duration(
                    now.spec_duration_since(Self::spec_from_duration(accumulated)),
                );
                &&& reference.wf()
                &&& now.reaches(reference)
                &&& now.spec_duration_since(reference) == accumulated
                &&& later.reaches(reference)
                &&& later.spec_duration_since(reference) == Self::span_sum(
                    accumulated,
                    later.spec_duration_since(now),
                )
            }),
    ;
}

/// A point in time on the timeline of one clock, held as the span since that
/// clock's reference. Its view is that span in nanoseconds.
#[derive(Debug, Clone, Copy, PartialEq, Eq, Structural, Ord)]
pub struct TimePoint(pub Duration);

impl View for TimePoint {
    type V = nat;

    open spec fn view(&self) -> nat {
        self.0@
    }
}

impl core::ops::Sub for TimePoint {
    type Output = Duration;

    /// The span from `other` to `self`; `other` may not be the later one.
    fn sub(self, other: TimePoint) -> (d: Duration)
        ensures
            d.wf(),
            d@ == self@ - other@,
    {
        self.0 - other.0
    }
}

impl vstd::std_specs::ops::SubSpecImpl for TimePoint {
    open spec fn obeys_sub_spec() -> bool {
        true
    }

    open spec fn sub_req(self, other: TimePoint) -> bool {
        self@ >= other@
    }

    open spec fn sub_spec(self, other: TimePoint) -> Duration {
        Duration::from_total((self@ - other@) as nat)
    }
}

impl From<Duration> for TimePoint {
    /// The instant that lies `d` after the clock's reference.
    fn from(d: Duration) -> (t: TimePoint) {
        TimePoint(d)
    }
}

impl vstd::std_specs::convert::FromSpecImpl<Duration> for TimePoint {
    open spec fn obeys_from_spec() -> bool {
        true
    }

    open spec fn from_spec(d: Duration) -> TimePoint {
        TimePoint(d)
    }
}

impl From<TimePoint> for Duration {
    /// The span from the clock's reference to `t`.
    fn from(t: TimePoint) -> (d: Duration) {
        t.0
    }
}

impl vstd::std_specs::convert::FromSpecImpl<TimePoint> for Duration {
    open spec fn obeys_from_spec() -> bool {
        true
    }

    open spec fn from_spec(t: TimePoint) -> Duration {
        t.0
    }
}

impl PartialOrd for TimePoint {
    /// Instants of one clock are ordered by their distance from its
    /// reference.
    fn partial_cmp(&self, other: &TimePoint) -> (r: Option<Ordering>) {
        self.0.partial_cmp(&other.0)
    }
}

impl vstd::std_specs::cmp::PartialOrdSpecImpl for TimePoint {
    open spec fn obeys_partial_cmp_spec() -> bool {
        true
    }

    open spec fn partial_cmp_spec(&self, other: &TimePoint) -> Option<Ordering> {
        if self@ < other@ {
            Some(Ordering::Less)
        } else if self@ > other@ {
            Some(Ordering::Greater)
        } else {
            Some(Ordering::Equal)
        }
    }
}

impl Instant for TimePoint {
    type Span = Duration;

    open spec fn wf(self) -> bool {
        self.0.wf()
    }

    open spec fn span_wf(span: Duration) -> bool {
        span.wf()
    }

    open spec fn reaches(self, earlier: TimePoint) -> bool {
        self@ >= earlier@
    }

    open spec fn spec_duration_since(self, earlier: TimePoint) -> Duration {
        Duration::from_total((self@ - earlier@) as nat)
    }

    open spec fn spec_from_duration(span: Duration) -> TimePoint {
        TimePoint(span)
    }

    open spec fn spec_into_duration(self) -> Duration {
        self.0
    }

    open spec fn span_sum(first: Duration, second: Duration) -> Duration {
        Duration::from_total(first@ + second@)
    }

    fn has_reached(self, earlier: TimePoint) -> (b: bool) {
        self.0 >= earlier.0
    }

    fn duration_since(self, earlier: TimePoint) -> (span: Duration)
        ensures
            span.wf(),
            span@ == self@ - earlier@,
    {
        self - earlier
    }

    fn from_duration(span: Duration) -> (t: TimePoint) {
        TimePoint(span)
    }

    fn into_duration(self) -> (span: Duration) {
        self.0
    }

    proof fn lemma_span_round_trip(span: Duration) {
    }

    proof fn lemma_instant_round_trip(self) {
    }

    proof fn lemma_reaches_order(self, middle: TimePoint, earlier: TimePoint) {
    }

    proof fn lemma_duration_since_wf(self, earlier: TimePoint) {
        self.0.lemma_view_bounded();
        Duration::lemma_from_total((self@ - earlier@) as nat);
    }

    proof fn lemma_span_within(self, earlier: TimePoint) {
        self.0.lemma_view_bounded();
        Duration::lemma_from_total((self@ - earlier@) as nat);
    }

    proof fn lemma_displaced_reference(later: TimePoint, now: TimePoint, accumulated: Duration) {
        later.0.lemma_view_bounded();
        now.0.lemma_view_bounded();
        accumulated.lemma_view_bounded();
        Duration::lemma_from_total((now@ - accumulated@) as nat);
        Duration::lemma_from_total((later@ - now@) as nat);
    }
}

/// Three spans measured over one stretch of a process's life: wall-clock
/// time, CPU time in user mode and CPU time in kernel mode. Its view holds the
/// three in nanoseconds, in that order.
#[derive(Debug, Clone, Copy, PartialEq, Eq, Structural)]
pub struct ProcessDuration {
    /// Wall-clock time.
    pub real: Duration,
    /// CPU time spent in user mode.
    pub user: Duration,
    /// CPU time spent in kernel mode.
    pub system: Duration,
}

impl View for ProcessDuration {
    type V = (nat, nat, nat);

    open spec fn view(&self) -> (nat, nat, nat) {
        (self.real@, self.user@, self.system@)
    }
}

impl ProcessDuration {
    /// All three spans are valid.
    pub open spec fn wf(self) -> bool {
        self.real.wf() && self.user.wf() && self.system.wf()
    }

    /// The sum of two triples, span by span.
    pub open spec fn plus(self, rhs: ProcessDuration) -> ProcessDuration {
        ProcessDuration {
            real: Duration::from_total(self.real@ + rhs.real@),
            user: Duration::from_total(self.user@ + rhs.user@),
            system: Duration::from_total(self.system@ + rhs.system@),
        }
    }

    /// The difference of two triples, span by span.
    pub open spec fn minus(self, rhs: ProcessDuration) -> ProcessDuration {
        ProcessDuration {
            real: Duration::from_total((self.real@ - rhs.real@) as nat),
            user: Duration::from_total((self.user@ - rhs.user@) as nat),
            system: Duration::from_total((self.system@ - rhs.system@) as nat),
        }
    }

    /// The CPU time in both modes together, in nanoseconds.
    pub open spec fn spec_cpu_time(self) -> nat {
        self.user@ + self.system@
    }

    /// The CPU time in both modes together.
    pub fn cpu_time(&self) -> (d: Duration)
        requires
            self.spec_cpu_time() <= max_nanos(),
        ensures
            d.wf(),
            d@ == self.spec_cpu_time(),
    {
        let d = self.user + self.system;
        proof {
            Duration::lemma_from_total(self.spec_cpu_time());
        }
        d
    }

    /// Adds `rhs` to `self`, span by span.
    pub fn add_assign(&mut self, rhs: ProcessDuration)
        requires
            old(self).real@ + rhs.real@ <= max_nanos(),
            old(self).user@ + rhs.user@ <= max_nanos(),
            old(self).system@ + rhs.system@ <= max_nanos(),
        ensures
            *final(self) == old(self).plus(rhs),
    {
        *self = *self + rhs;
    }

    /// Takes `rhs` from `self`, span by span.
    pub fn sub_assign(&mut self, rhs: ProcessDuration)
        requires
            old(self).real@ >= rhs.real@,
            old(self).user@ >= rhs.user@,
            old(self).system@ >= rhs.system@,
        ensures
            *final(self) == old(self).minus(rhs),
    {
        *self = *self - rhs;
    }
}

impl Default for ProcessDuration {
    /// Three empty spans.
    fn default() -> (d: ProcessDuration)
        ensures
            d.wf(),
            d@ == (0nat, 0nat, 0nat),
    {
        ProcessDuration {
            real: Duration::default(),
            user: Duration::default(),
            system: Duration::default(),
        }
    }
}

impl core::ops::Add for ProcessDuration {
    type Output = ProcessDuration;

    /// The sum, span by span; each has to stay within the range of a span.
    fn add(self, rhs: ProcessDuration) -> (d: ProcessDuration) {
        ProcessDuration {
            real: self.real + rhs.real,
            user: self.user + rhs.user,
            system: self.system + rhs.system,
        }
    }
}

impl vstd::std_specs::ops::AddSpecImpl for ProcessDuration {
    open spec fn obeys_add_spec() -> bool {
        true
    }

    open spec fn add_req(self, rhs: ProcessDuration) -> bool {
        &&& self.real@ + rhs.real@ <= max_nanos()
        &&& self.user@ + rhs.user@ <= max_nanos()
        &&& self.system@ + rhs.system@ <= max_nanos()
    }

    open spec fn add_spec(self, rhs: ProcessDuration) -> ProcessDuration {
        self.plus(rhs)
    }
}

impl core::ops::Sub for ProcessDuration {
    type Output = ProcessDuration;

    /// The difference, span by span; no span of `rhs` may be the longer one.
    fn sub(self, rhs: ProcessDuration) -> (d: ProcessDuration) {
        ProcessDuration {
            real: self.real - rhs.real,
            user: self.user - rhs.user,
            system: self.system - rhs.system,
        }
    }
}

impl vstd::std_specs::ops::SubSpecImpl for ProcessDuration {
    open spec fn obeys_sub_spec() -> bool {
        true
    }

    open spec fn sub_req(self, rhs: ProcessDuration) -> bool {
        &&& self.real@ >= rhs.real@
        &&& self.user@ >= rhs.user@
        &&& self.system@ >= rhs.system@
    }

    open spec fn sub_spec(self, rhs: ProcessDuration) -> ProcessDuration {
        self.minus(rhs)
    }
}

/// Three instants sampled together: one on the wall-clock timeline of the
/// process, one on that of its user-mode CPU time, one on that of its
/// kernel-mode CPU time. Its view holds the three in nanoseconds, in that
/// order.
#[derive(Debug, Clone, Copy, PartialEq, Eq, Structural)]
pub struct ProcessTimePoint {
    /// The instant on the wall-clock timeline.
    pub real: Duration,
    /// The instant on the timeline of user-mode CPU time.
    pub user: Duration,
    /// The instant on the timeline of kernel-mode CPU time.
    pub system: Duration,
}

impl View for ProcessTimePoint {
    type V = (nat, nat, nat);

    open spec fn view(&self) -> (nat, nat, nat) {
        (self.real@, self.user@, self.system@)
    }
}

impl core::ops::Sub for ProcessTimePoint {
    type Output = ProcessDuration;

    /// The spans from `other` to `self`, timeline by timeline; `other` may
    /// not be the later one on any of them.
    fn sub(self, other: ProcessTimePoint) -> (d: ProcessDuration) {
        ProcessDuration {
            real: self.real - other.real,
            user: self.user - other.user,
            system: self.system - other.system,
        }
    }
}

impl vstd::std_specs::ops::SubSpecImpl for ProcessTimePoint {
    open spec fn obeys_sub_spec() -> bool {
        true
    }

    open spec fn sub_req(self, other: ProcessTimePoint) -> bool {
        &&& self.real@ >= other.real@
        &&& self.user@ >= other.user@
        &&& self.system@ >= other.system@
    }

    open spec fn sub_spec(self, other: ProcessTimePoint) -> ProcessDuration {
        ProcessDuration {
            real: Duration::from_total((self.real@ - other.real@) as nat),
            user: Duration::from_total((self.user@ - other.user@) as nat),
            system: Duration::from_total((self.system@ - other.system@) as nat),
        }
    }
}

impl From<ProcessDuration> for ProcessTimePoint {
    /// The instants that lie `d` after the references of the three
    /// timelines.
    fn from(d: ProcessDuration) -> (t: ProcessTimePoint) {
        ProcessTimePoint { real: d.real, user: d.user, system: d.system }
    }
}

impl vstd::std_specs::convert::FromSpecImpl<ProcessDuration> for ProcessTimePoint {
    open spec fn obeys_from_spec() -> bool {
        true
    }

    open spec fn from_spec(d: ProcessDuration) -> ProcessTimePoint {
        ProcessTimePoint { real: d.real, user: d.user, system: d.system }
    }
}

impl From<ProcessTimePoint> for ProcessDuration {
    /// The spans from the references of the three timelines to `t`.
    fn from(t: ProcessTimePoint) -> (d: ProcessDuration) {
        ProcessDuration { real: t.real, user: t.user, system: t.system }
    }
}

impl vstd::std_specs::convert::FromSpecImpl<ProcessTimePoint> for ProcessDuration {
    open spec fn obeys_from_spec() -> bool {
        true
    }

    open spec fn from_spec(t: ProcessTimePoint) -> ProcessDuration {
        ProcessDuration { real: t.real, user: t.user, system: t.system }
    }
}

impl Instant for ProcessTimePoint {
    type Span = ProcessDuration;

    open spec fn wf(self) -> bool {
        self.real.wf() && self.user.wf() && self.system.wf()
    }

    open spec fn span_wf(span: ProcessDuration) -> bool {
        span.wf()
    }

    open spec fn reaches(self, earlier: ProcessTimePoint) -> bool {
        &&& self.real@ >= earlier.real@
        &&& self.user@ >= earlier.user@
        &&& self.system@ >= earlier.system@
    }

    open spec fn spec_duration_since(self, earlier: ProcessTimePoint) -> ProcessDuration {
        ProcessDuration {
            real: Duration::from_total((self.real@ - earlier.real@) as nat),
            user: Duration::from_total((self.user@ - earlier.user@) as nat),
            system: Duration::from_total((self.system@ - earlier.system@) as nat),
        }
    }

    open spec fn spec_from_duration(span: ProcessDuration) -> ProcessTimePoint {
        ProcessTimePoint { real: span.real, user: span.user, system: span.system }
    }

    open spec fn spec_into_duration(self) -> ProcessDuration {
        ProcessDuration { real: self.real, user: self.user, system: self.system }
    }

    open spec fn span_sum(first: ProcessDuration, second: ProcessDuration) -> ProcessDuration {
        first.plus(second)
    }

    fn has_reached(self, earlier: ProcessTimePoint) -> (b: bool) {
        self.real >= earlier.real && self.user >= earlier.user && self.system >= earlier.system
    }

    fn duration_since(self, earlier: ProcessTimePoint) -> (span: ProcessDuration) {
        self - earlier
    }

    fn from_duration(span: ProcessDuration) -> (t: ProcessTimePoint) {
        ProcessTimePoint { real: span.real, user: span.user, system: span.system }
    }

    fn into_duration(self) -> (span: ProcessDuration) {
        ProcessDuration { real: self.real, user: self.user, system: self.system }
    }

    proof fn lemma_span_round_trip(span: ProcessDuration) {
    }

    proof fn lemma_instant_round_trip(self) {
    }

    proof fn lemma_reaches_order(self, middle: ProcessTimePoint, earlier: ProcessTimePoint) {
    }

    proof fn lemma_duration_since_wf(self, earlier: ProcessTimePoint) {
        TimePoint(self.real).lemma_duration_since_wf(TimePoint(earlier.real));
        TimePoint(self.user).lemma_duration_since_wf(TimePoint(earlier.user));
        TimePoint(self.system).lemma_duration_since_wf(TimePoint(earlier.system));
    }

    proof fn lemma_span_within(self, earlier: ProcessTimePoint) {
        TimePoint(self.real).lemma_span_within(TimePoint(earlier.real));
        TimePoint(self.user).lemma_span_within(TimePoint(earlier.user));
        TimePoint(self.system).lemma_span_within(TimePoint(earlier.system));
    }

    proof fn lemma_displaced_reference(
        later: ProcessTimePoint,
        now: ProcessTimePoint,
        accumulated: ProcessDuration,
    ) {
        TimePoint::lemma_displaced_reference(
            TimePoint(later.real),
            TimePoint(now.real),
            accumulated.real,
        );
        TimePoint::lemma_displaced_reference(
            TimePoint(later.user),
            TimePoint(now.user),
            accumulated.user,
        );
        TimePoint::lemma_displaced_reference(
            TimePoint(later.system),
            TimePoint(now.system),
            accumulated.system,
        );
    }
}

/// The conversion between spans and instants loses nothing: three spans
/// turned into three instants and back are the spans they were, and so is
/// what lies between those instants and the references of their timelines.
pub proof fn lemma_process_round_trip(d: ProcessDuration)
    ensures
        ProcessDuration::from_spec(ProcessTimePoint::from_spec(d)) == d,
        ProcessTimePoint::from_spec(d).spec_into_duration() == d,
        d.wf() ==> ProcessTimePoint::from_spec(d).sub_spec(
            ProcessTimePoint::from_spec(
                ProcessDuration {
                    real: Duration::from_total(0),
                    user: Duration::from_total(0),
                    system: Duration::from_total(0),
                },
            ),
        ) == d,
{
    if d.wf() {
        Duration::lemma_from_total(0);
        d.real.lemma_view_bounded();
        d.user.lemma_view_bounded();
        d.system.lemma_view_bounded();
    }
}

/// The conversion between a span and an instant loses nothing: a span turned
/// into an instant and back is the span it was, and so is what lies between
/// that instant and the reference of its timeline.
pub proof fn lemma_round_trip(d: Duration)
    ensures
        Duration::from_spec(TimePoint::from_spec(d)) == d,
        TimePoint::from_spec(d).spec_into_duration() == d,
        d.wf() ==> TimePoint::from_spec(d).sub_spec(TimePoint::from_spec(Duration::from_total(0)))
            == d,
{
    if d.wf() {
        Duration::lemma_from_total(0);
        d.lemma_view_bounded();
    }
}

} // verus!

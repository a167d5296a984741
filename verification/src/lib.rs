//! Stopwatches over several notions of time: wall-clock time, steady time,
//! the CPU time of a process in user and in kernel mode, and the CPU time of
//! one thread.
//!
//! The crate holds the part of time measurement that can be reasoned about:
//! what a raw reading of an operating-system clock means, and how a stopwatch
//! accumulates the instants it is shown. Every function states what it
//! returns in a contract that Verus checks. Sampling the operating system is
//! left to the caller.
//!
//! * [`Duration`] is a span of time, [`TimePoint`] an instant on the timeline
//!   of one clock; [`ProcessDuration`] and [`ProcessTimePoint`] hold three of
//!   each, for the wall-clock, user-mode and kernel-mode time of a process.
//! * A [`Clock`] turns the outcome of one sample of its primitive into an
//!   instant, or into the [`Error`] that the sample reports. The clocks of
//!   each platform are in [`clock`].
//! * A [`Timer`] is a stopwatch over the instants of one clock, with start,
//!   stop and resume; a [`ThreadTimer`] is one that stays on its thread.
//!
//! ```text
//! let reading = TimespecReading { status: 0, sec: 5, nsec: 250 };
//! let mut timer = Timer::new(SteadyClock::now(reading));
//! // sample again, later
//! timer.stop(SteadyClock::now(TimespecReading { status: 0, sec: 7, nsec: 0 }));
//! ```

pub mod duration;
pub use duration::Duration;

mod types;
pub use types::{
    lemma_process_round_trip, lemma_round_trip, Clock, Error, Fault, Instant, ProcessDuration,
    ProcessTimePoint, TimePoint,
};

pub mod timer;
pub use timer::{
    HighResolutionTimer, ProcessCPUTimer, ProcessRealCPUTimer, ProcessSystemCPUTimer,
    ProcessUserCPUTimer, SteadyTimer, SystemTimer, ThreadTimer, Timer, TimerState,
};

pub mod clock;

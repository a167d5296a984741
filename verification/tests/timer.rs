use howlong::clock::posix::{
    ProcessCPUClock, ProcessSystemCPUClock, ProcessUserCPUClock, SteadyClock, SystemClock,
    ThreadClock, TimesReading, TimespecReading, Tms,
};
use howlong::{
    Clock, Duration, HighResolutionTimer, ProcessCPUTimer, ProcessDuration, ProcessRealCPUTimer,
    ProcessSystemCPUTimer, ProcessTimePoint, ProcessUserCPUTimer, SteadyTimer, SystemTimer,
    ThreadTimer, TimePoint, Timer, TimerState,
};
use std::time::{Instant, SystemTime, UNIX_EPOCH};

fn at(millis: u64) -> TimePoint {
    TimePoint::from(Duration::from_millis(millis))
}

fn process_at(real: u64, user: u64, system: u64) -> ProcessTimePoint {
    ProcessTimePoint {
        real: Duration::from_millis(real),
        user: Duration::from_millis(user),
        system: Duration::from_millis(system),
    }
}

fn spans(real: u64, user: u64, system: u64) -> ProcessDuration {
    ProcessDuration {
        real: Duration::from_millis(real),
        user: Duration::from_millis(user),
        system: Duration::from_millis(system),
    }
}

fn timespec(sec: i64, nsec: i64) -> TimespecReading {
    TimespecReading { status: 0, sec, nsec }
}

fn sample(elapsed: i64, utime: i64, stime: i64) -> TimesReading {
    TimesReading {
        elapsed,
        tms: Tms { utime, stime, cutime: 0, cstime: 0 },
        ticks_per_second: 100,
    }
}

fn wall_clock() -> TimePoint {
    let since_epoch = SystemTime::now().duration_since(UNIX_EPOCH).unwrap();
    SystemClock::now(timespec(since_epoch.as_secs() as i64, since_epoch.subsec_nanos() as i64))
}

fn steady_clock(base: Instant) -> TimePoint {
    let since_base = base.elapsed();
    SteadyClock::now(timespec(since_base.as_secs() as i64, since_base.subsec_nanos() as i64))
}

fn sleep(millis: u64) {
    let start = Instant::now();
    while start.elapsed() < std::time::Duration::from_millis(millis) {
        std::hint::spin_loop();
    }
}

fn computation_task() -> i32 {
    (0..1_000_000).fold(0, |old, new| old ^ new)
}

#[test]
fn a_new_timer_runs_from_its_first_instant() {
    let timer = Timer::new(at(100));
    assert!(timer.is_running());
    assert!(!timer.is_stopped());
    assert!(matches!(timer.state(), TimerState::Running { reference } if reference == at(100)));
    assert_eq!(timer.elapsed(at(100)), Duration::from_nanos(0));
    assert_eq!(timer.elapsed(at(130)), Duration::from_millis(30));
}

#[test]
fn elapsed_grows_while_the_timer_runs() {
    let timer = Timer::new(at(100));
    let first = timer.elapsed(at(101));
    let second = timer.elapsed(at(102));
    assert!(first < second);
    assert!(timer.is_running());
}

#[test]
fn elapsed_stands_still_while_the_timer_is_stopped() {
    let mut timer = Timer::new(at(100));
    timer.stop(at(130));
    assert!(timer.is_stopped());
    assert!(!timer.is_running());
    assert!(matches!(
        timer.state(),
        TimerState::Stopped { accumulated } if accumulated == Duration::from_millis(30)
    ));
    assert_eq!(timer.elapsed(at(130)), Duration::from_millis(30));
    assert_eq!(timer.elapsed(at(131)), Duration::from_millis(30));
    assert_eq!(timer.elapsed(at(9_000)), Duration::from_millis(30));
    assert_eq!(timer.elapsed(at(0)), Duration::from_millis(30));
}

#[test]
fn stop_and_resume_add_up_the_stretches_that_ran() {
    let mut timer = Timer::new(at(1_000));
    timer.stop(at(1_010));
    timer.resume(at(1_500));
    assert!(timer.is_running());
    assert_eq!(timer.elapsed(at(1_500)), Duration::from_millis(10));
    timer.stop(at(1_525));
    assert_eq!(timer.elapsed(at(2_000)), Duration::from_millis(35));
    timer.resume(at(3_000));
    timer.stop(at(3_001));
    assert_eq!(timer.elapsed(at(3_001)), Duration::from_millis(36));
}

#[test]
fn resume_displaces_the_reference_by_what_was_accumulated() {
    let mut timer = Timer::new(at(1_000));
    timer.stop(at(1_010));
    timer.resume(at(1_500));
    assert!(matches!(timer.state(), TimerState::Running { reference } if reference == at(1_490)));
}

#[test]
fn start_after_stop_drops_what_was_accumulated() {
    let mut timer = Timer::new(at(1_000));
    timer.stop(at(1_020));
    timer.start(at(5_000));
    assert!(timer.is_running());
    assert!(matches!(timer.state(), TimerState::Running { reference } if reference == at(5_000)));
    timer.stop(at(5_001));
    assert_eq!(timer.elapsed(at(5_001)), Duration::from_millis(1));
    assert!(timer.elapsed(at(5_001)) < Duration::from_millis(20));
}

#[test]
fn start_and_resume_leave_a_running_timer_alone() {
    let mut timer = Timer::new(at(1_000));
    timer.start(at(1_200));
    assert_eq!(timer.elapsed(at(1_300)), Duration::from_millis(300));
    timer.resume(at(1_250));
    assert_eq!(timer.elapsed(at(1_300)), Duration::from_millis(300));
    timer.resume(at(0));
    assert_eq!(timer.elapsed(at(1_300)), Duration::from_millis(300));
    assert!(timer.is_running());
}

#[test]
fn stop_leaves_a_stopped_timer_alone() {
    let mut timer = Timer::new(at(1_000));
    timer.stop(at(1_200));
    timer.stop(at(1_700));
    assert_eq!(timer.elapsed(at(1_700)), Duration::from_millis(200));
    timer.stop(at(0));
    assert_eq!(timer.elapsed(at(1_700)), Duration::from_millis(200));
    assert!(timer.is_stopped());
}

#[test]
fn a_timer_accepts_the_instants_it_can_measure() {
    let mut timer = Timer::new(at(1_000));
    assert!(timer.accepts(at(1_000)));
    assert!(timer.accepts(at(1_001)));
    assert!(!timer.accepts(at(999)));
    timer.stop(at(1_200));
    assert!(timer.accepts(at(200)));
    assert!(timer.accepts(at(1_200)));
    assert!(!timer.accepts(at(199)));
}

#[test]
fn the_process_timer_measures_timeline_by_timeline() {
    let mut timer: ProcessCPUTimer = Timer::new(process_at(1_000, 400, 30));
    assert!(timer.is_running());
    assert!(timer.accepts(process_at(1_000, 400, 30)));
    assert!(!timer.accepts(process_at(1_100, 399, 30)));
    assert_eq!(timer.elapsed(process_at(1_800, 900, 31)), spans(800, 500, 1));
    timer.stop(process_at(1_800, 900, 31));
    assert!(timer.is_stopped());
    assert_eq!(timer.elapsed(process_at(0, 0, 0)), spans(800, 500, 1));
    timer.resume(process_at(2_000, 1_000, 40));
    assert!(matches!(
        timer.state(),
        TimerState::Running { reference } if reference == process_at(1_200, 500, 39)
    ));
    timer.stop(process_at(2_050, 1_040, 42));
    assert_eq!(timer.elapsed(process_at(0, 0, 0)), spans(850, 540, 3));
    timer.start(process_at(5_000, 2_000, 50));
    timer.stop(process_at(5_001, 2_000, 50));
    assert_eq!(timer.elapsed(process_at(0, 0, 0)), spans(1, 0, 0));
}

#[test]
fn the_thread_timer_is_the_same_stopwatch() {
    let mut timer = ThreadTimer::new(at(10));
    assert!(timer.is_running());
    assert!(!timer.is_stopped());
    assert!(timer.accepts(at(10)));
    assert!(!timer.accepts(at(9)));
    assert_eq!(timer.elapsed(at(25)), Duration::from_millis(15));
    timer.stop(at(30));
    assert!(timer.is_stopped());
    assert!(matches!(
        timer.state(),
        TimerState::Stopped { accumulated } if accumulated == Duration::from_millis(20)
    ));
    assert_eq!(timer.elapsed(at(99)), Duration::from_millis(20));
    timer.stop(at(40));
    assert_eq!(timer.elapsed(at(99)), Duration::from_millis(20));
    timer.resume(at(100));
    timer.resume(at(101));
    assert_eq!(timer.elapsed(at(105)), Duration::from_millis(25));
    timer.stop(at(110));
    assert_eq!(timer.elapsed(at(110)), Duration::from_millis(30));
    timer.start(at(200));
    timer.start(at(203));
    timer.stop(at(204));
    assert_eq!(timer.elapsed(at(204)), Duration::from_millis(4));
}

#[test]
fn test_system_timer() {
    let ten_millis = Duration::from_millis(10);
    let twenty_millis = Duration::from_millis(20);
    let mut timer: SystemTimer = Timer::new(wall_clock());
    assert!(timer.is_running());
    sleep(10);
    let elapsed = timer.elapsed(wall_clock());
    assert!(timer.is_running());
    assert!(elapsed >= ten_millis);
    timer.stop(wall_clock());
    assert!(timer.is_stopped());
    sleep(10);
    assert!(timer.elapsed(wall_clock()) >= elapsed);
    timer.resume(wall_clock());
    sleep(10);
    timer.stop(wall_clock());
    assert!(timer.elapsed(wall_clock()) >= twenty_millis);
    timer.start(wall_clock());
    timer.stop(wall_clock());
    assert!(timer.elapsed(wall_clock()) < twenty_millis);
}

#[test]
fn test_steady_timer() {
    let base = Instant::now();
    let ten_millis = Duration::from_millis(10);
    let twenty_millis = Duration::from_millis(20);
    let mut timer: SteadyTimer = Timer::new(steady_clock(base));
    assert!(timer.is_running());
    sleep(10);
    let elapsed = timer.elapsed(steady_clock(base));
    assert!(timer.is_running());
    assert!(elapsed >= ten_millis);
    timer.stop(steady_clock(base));
    assert!(timer.is_stopped());
    sleep(10);
    assert!(timer.elapsed(steady_clock(base)) >= elapsed);
    timer.resume(steady_clock(base));
    sleep(10);
    timer.stop(steady_clock(base));
    assert!(timer.elapsed(steady_clock(base)) >= twenty_millis);
    timer.start(steady_clock(base));
    timer.stop(steady_clock(base));
    assert!(timer.elapsed(steady_clock(base)) < twenty_millis);
}

#[test]
fn test_high_resolution_timer() {
    let base = Instant::now();
    let ten_millis = Duration::from_millis(10);
    let twenty_millis = Duration::from_millis(20);
    let mut timer: HighResolutionTimer = Timer::new(steady_clock(base));
    assert!(timer.is_running());
    sleep(10);
    let elapsed = timer.elapsed(steady_clock(base));
    assert!(timer.is_running());
    assert!(elapsed >= ten_millis);
    timer.stop(steady_clock(base));
    assert!(timer.is_stopped());
    sleep(10);
    assert!(timer.elapsed(steady_clock(base)) >= elapsed);
    timer.resume(steady_clock(base));
    sleep(10);
    timer.stop(steady_clock(base));
    assert!(timer.elapsed(steady_clock(base)) >= twenty_millis);
    timer.start(steady_clock(base));
    timer.stop(steady_clock(base));
    assert!(timer.elapsed(steady_clock(base)) < twenty_millis);
}

#[test]
fn test_process_real_cpu_timer() {
    let ten_millis = Duration::from_millis(10);
    let twenty_millis = Duration::from_millis(20);
    let real = |elapsed: i64| {
        howlong::clock::posix::ProcessRealCPUClock::now(sample(elapsed, 0, 0))
    };
    let mut timer: ProcessRealCPUTimer = Timer::new(real(7_000));
    assert!(timer.is_running());
    let elapsed = timer.elapsed(real(7_001));
    assert!(timer.is_running());
    assert!(elapsed >= ten_millis);
    timer.stop(real(7_001));
    assert!(timer.is_stopped());
    assert!(timer.elapsed(real(7_002)) >= elapsed);
    timer.resume(real(7_002));
    timer.stop(real(7_003));
    assert!(timer.elapsed(real(7_003)) >= twenty_millis);
    timer.start(real(7_003));
    timer.stop(real(7_003));
    assert!(timer.elapsed(real(7_003)) < twenty_millis);
}

#[test]
fn test_process_user_cpu_timer() {
    let timer: ProcessUserCPUTimer = Timer::new(ProcessUserCPUClock::now(sample(7_000, 3, 1)));
    let _ = computation_task();
    let elapsed = timer.elapsed(ProcessUserCPUClock::now(sample(7_002, 5, 1)));
    assert!(elapsed > Duration::from_nanos(0));
}

#[test]
fn test_process_system_cpu_timer() {
    let timer: ProcessSystemCPUTimer =
        Timer::new(ProcessSystemCPUClock::now(sample(7_000, 3, 1)));
    let elapsed = timer.elapsed(ProcessSystemCPUClock::now(sample(7_000, 3, 1)));
    assert!(elapsed < Duration::from_nanos(10));
}

#[test]
fn test_process_cpu_timer() {
    let timer: ProcessCPUTimer = Timer::new(ProcessCPUClock::now(sample(7_000, 3, 1)));
    let _ = (0..4).map(|_| computation_task()).sum::<i32>();
    let elapsed = timer.elapsed(ProcessCPUClock::now(sample(7_010, 42, 2)));
    let cpu_usage = elapsed.cpu_time().as_nanos() as f64 / elapsed.real.as_nanos() as f64;
    assert!(cpu_usage >= 1f64);
    assert!(elapsed.real > Duration::from_nanos(0));
    assert!(elapsed.user > Duration::from_nanos(0));
    assert!(elapsed.user + elapsed.system >= elapsed.real);
}

#[test]
fn test_thread_timer() {
    let timer_outer = ThreadTimer::new(ThreadClock::now(timespec(0, 1_000_000)));
    let timer_inner = ThreadTimer::new(ThreadClock::now(timespec(0, 0)));
    let _ = computation_task();
    let elapsed_inner = timer_inner.elapsed(ThreadClock::now(timespec(0, 8_000_000)));
    let elapsed_outter = timer_outer.elapsed(ThreadClock::now(timespec(0, 1_200_000)));
    assert!(elapsed_inner > Duration::from_nanos(0));
    assert!(elapsed_inner > elapsed_outter);
}

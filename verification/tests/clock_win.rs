use errno::{set_errno, Errno};
use howlong::clock::win::{
    filetime_to_duration, get_process_times, performance_factor, CpuTimesReading, Filetime,
    HighResolutionClock, PerformanceReading, ProcessCPUClock, ProcessReading,
    ProcessRealCPUClock, ProcessSystemCPUClock, ProcessUserCPUClock, SteadyClock, SystemClock,
    ThreadClock,
};
use howlong::{Clock, Duration, Error, ProcessTimePoint, TimePoint};

fn filetime(ticks: u64) -> Filetime {
    Filetime { low: ticks as u32, high: (ticks >> 32) as u32 }
}

fn counter(frequency: i64, counter: i64) -> PerformanceReading {
    PerformanceReading { frequency_status: 1, frequency, counter_status: 1, counter }
}

fn cpu_times(user: u64, system: u64) -> CpuTimesReading {
    CpuTimesReading { status: 1, user: filetime(user), system: filetime(system) }
}

#[test]
fn a_filetime_counts_ticks_of_a_hundred_nanoseconds() {
    assert_eq!(filetime_to_duration(Filetime { low: 0, high: 0 }), Duration::from_nanos(0));
    assert_eq!(filetime_to_duration(Filetime { low: 7, high: 0 }), Duration::from_nanos(700));
    assert_eq!(
        filetime_to_duration(Filetime { low: 5, high: 1 }),
        Duration::from_nanos((0x1_0000_0000 + 5) * 100)
    );
    assert_eq!(
        filetime_to_duration(Filetime { low: 10_000_000, high: 0 }),
        Duration::from_secs(1)
    );
}

#[test]
fn a_full_filetime_is_converted_without_wrapping() {
    let d = filetime_to_duration(Filetime { low: u32::MAX, high: u32::MAX });
    assert_eq!(d.as_nanos(), u64::MAX as u128 * 100);
    let d = filetime_to_duration(Filetime { low: 0, high: u32::MAX });
    assert_eq!(d.as_nanos(), 0xffff_ffff_0000_0000u128 * 100);
}

#[test]
fn the_system_clock_reads_a_filetime() {
    let reading = filetime(132_000_000_000_000_000);
    assert!(SystemClock::is_representable(&reading));
    assert_eq!(
        SystemClock::try_now(reading),
        Ok(TimePoint::from(Duration::from_secs(13_200_000_000)))
    );
    assert_eq!(SystemClock::now(filetime(15)), TimePoint::from(Duration::from_nanos(1_500)));
}

#[test]
fn the_performance_factor_is_the_nanoseconds_of_one_tick() {
    assert_eq!(performance_factor(10_000_000), 100);
    assert_eq!(performance_factor(1), 1_000_000_000);
    assert_eq!(performance_factor(3), 333_333_333);
    assert_eq!(performance_factor(1_000_000_000), 1);
    assert_eq!(performance_factor(1_000_000_001), 0);
    assert_eq!(performance_factor(i64::MAX), 0);
}

#[test]
fn a_negative_frequency_gives_a_factor_read_as_unsigned() {
    assert_eq!(performance_factor(-1), (-1_000_000_000i64) as u64);
    assert_eq!(performance_factor(-3), (-333_333_333i64) as u64);
    assert_eq!(performance_factor(-2_000_000_000), 0);
    assert_eq!(performance_factor(i64::MIN), 0);
}

#[test]
fn the_performance_counter_is_scaled_by_the_factor() {
    let t = SteadyClock::try_now(counter(10_000_000, 123)).unwrap();
    assert_eq!(t, TimePoint::from(Duration::from_nanos(12_300)));
    let t = HighResolutionClock::now(counter(3, 3));
    assert_eq!(t, TimePoint::from(Duration::from_nanos(999_999_999)));
    let t = ProcessRealCPUClock::now(counter(1_000, 5_000));
    assert_eq!(t, TimePoint::from(Duration::from_secs(5)));
    let t = SteadyClock::now(counter(2_000_000_000, 5_000));
    assert_eq!(t, TimePoint::from(Duration::from_nanos(0)));
    let t = SteadyClock::now(counter(1, -1));
    assert_eq!(Duration::from(t).as_secs(), u64::MAX);
}

#[test]
fn a_failed_query_carries_the_call_and_the_code() {
    let mut reading = counter(10_000_000, 123);
    reading.frequency_status = 0;
    reading.counter_status = 0;
    set_errno(Errno(120));
    assert_eq!(
        SteadyClock::try_now(reading),
        Err(Error::SystemError("QueryPerformanceFrequency", 120))
    );
    assert_eq!(
        ProcessRealCPUClock::try_now(reading),
        Err(Error::SystemError("QueryPerformanceFrequency", 120))
    );
    reading.frequency_status = 1;
    set_errno(Errno(6));
    assert_eq!(
        SteadyClock::try_now(reading),
        Err(Error::SystemError("QueryPerformanceCounter", 6))
    );
    assert_eq!(reading.time_point(), Err(Error::SystemError("QueryPerformanceCounter", 6)));
}

#[test]
fn a_frequency_of_zero_is_not_representable() {
    assert!(SteadyClock::is_representable(&counter(10_000_000, 123)));
    assert!(!SteadyClock::is_representable(&counter(0, 123)));
    let mut reading = counter(0, 123);
    reading.counter_status = 0;
    assert!(!SteadyClock::is_representable(&reading));
    reading.frequency_status = 0;
    assert!(SteadyClock::is_representable(&reading));
    assert!(!ProcessRealCPUClock::is_representable(&counter(0, 0)));
}

#[test]
fn a_scaled_count_beyond_the_range_is_not_representable() {
    assert!(SteadyClock::is_representable(&counter(1, -1)));
    assert!(SteadyClock::is_representable(&counter(-1, 1)));
    assert!(!SteadyClock::is_representable(&counter(-1, -1)));
    let mut reading = counter(-1, -1);
    reading.counter_status = 0;
    assert!(SteadyClock::is_representable(&reading));
    let t = SteadyClock::now(counter(-1, 1));
    assert_eq!(Duration::from(t).as_nanos(), ((-1_000_000_000i64) as u64) as u128);
}

#[test]
fn get_process_times_gives_user_then_system() {
    let reading = cpu_times(70, 30);
    assert_eq!(get_process_times(reading), Ok((filetime(70), filetime(30))));
    let mut failed = reading;
    failed.status = 0;
    set_errno(Errno(5));
    assert_eq!(get_process_times(failed), Err(Error::SystemError("GetProcessTimes", 5)));
}

#[test]
fn the_process_clocks_read_their_own_filetime() {
    let reading = cpu_times(70, 30);
    assert_eq!(
        ProcessUserCPUClock::try_now(reading),
        Ok(TimePoint::from(Duration::from_nanos(7_000)))
    );
    assert_eq!(
        ProcessSystemCPUClock::try_now(reading),
        Ok(TimePoint::from(Duration::from_nanos(3_000)))
    );
    assert!(ProcessUserCPUClock::is_representable(&reading));
    assert!(ProcessSystemCPUClock::is_representable(&reading));
    let mut failed = reading;
    failed.status = 0;
    set_errno(Errno(5));
    assert_eq!(
        ProcessUserCPUClock::try_now(failed),
        Err(Error::SystemError("GetProcessTimes", 5))
    );
    assert_eq!(
        ProcessSystemCPUClock::try_now(failed),
        Err(Error::SystemError("GetProcessTimes", 5))
    );
}

#[test]
fn the_combined_clock_reads_all_three_times() {
    let reading = ProcessReading { times: cpu_times(70, 30), steady: counter(1_000, 5_000) };
    assert!(ProcessCPUClock::is_representable(&reading));
    assert_eq!(
        ProcessCPUClock::try_now(reading),
        Ok(ProcessTimePoint {
            real: Duration::from_secs(5),
            user: Duration::from_nanos(7_000),
            system: Duration::from_nanos(3_000),
        })
    );
}

#[test]
fn the_combined_clock_reports_the_process_times_first() {
    let mut reading = ProcessReading { times: cpu_times(70, 30), steady: counter(0, 5_000) };
    reading.times.status = 0;
    reading.steady.frequency_status = 0;
    assert!(ProcessCPUClock::is_representable(&reading));
    set_errno(Errno(5));
    assert_eq!(ProcessCPUClock::try_now(reading), Err(Error::SystemError("GetProcessTimes", 5)));
    reading.times.status = 1;
    assert!(ProcessCPUClock::is_representable(&reading));
    assert_eq!(
        ProcessCPUClock::try_now(reading),
        Err(Error::SystemError("QueryPerformanceFrequency", 5))
    );
    reading.steady.frequency_status = 1;
    assert!(!ProcessCPUClock::is_representable(&reading));
    reading.steady.frequency = 10;
    reading.steady.counter_status = 0;
    assert!(ProcessCPUClock::is_representable(&reading));
    assert_eq!(
        ProcessCPUClock::try_now(reading),
        Err(Error::SystemError("QueryPerformanceCounter", 5))
    );
}

#[test]
fn thread_time_is_both_filetimes_together() {
    let reading = cpu_times(70, 30);
    assert!(ThreadClock::is_representable(&reading));
    assert_eq!(ThreadClock::try_now(reading), Ok(TimePoint::from(Duration::from_nanos(10_000))));
    let t = ThreadClock::now(cpu_times(u64::MAX, u64::MAX));
    assert_eq!(Duration::from(t).as_nanos(), u64::MAX as u128 * 200);
    let mut failed = reading;
    failed.status = 0;
    set_errno(Errno(6));
    assert_eq!(ThreadClock::try_now(failed), Err(Error::SystemError("GetThreadTimes", 6)));
}

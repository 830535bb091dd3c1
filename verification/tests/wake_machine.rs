use wake_cycle::alarm::AlarmSpec;
use wake_cycle::datetime::RtcDateTime;
use wake_cycle::device::{Device, Event};
use wake_cycle::machine::{classify_wake, run_boot, BootOutcome, WakeCause};

fn dt(year: u16, month: u8, day: u8, hour: u8, minute: u8, second: u8) -> RtcDateTime {
    RtcDateTime::new(year, month, day, hour, minute, second).unwrap()
}

fn count(trace: &[Event], e: Event) -> usize {
    let mut n = 0;
    for t in trace {
        if *t == e {
            n += 1;
        }
    }
    n
}

fn position(trace: &[Event], e: Event) -> usize {
    let mut i = 0;
    while i < trace.len() {
        if trace[i] == e {
            return i;
        }
        i += 1;
    }
    panic!("event not in trace");
}

#[test]
fn classification_follows_the_status_bit_alone() {
    assert_eq!(classify_wake(true), WakeCause::AlarmWake);
    assert_eq!(classify_wake(false), WakeCause::ColdBoot);
}

#[test]
fn cold_boot_sets_clock_arms_alarm_and_halts() {
    let initial = dt(2020, 5, 15, 10, 30, 15);
    let mut device = Device::power_on(dt(2000, 1, 1, 0, 0, 0), false, 2, true);
    let report = run_boot(&mut device, initial, 1, AlarmSpec::seconds_match(5));

    assert_eq!(report.cause, WakeCause::ColdBoot);
    assert_eq!(report.outcome, BootOutcome::Halted);
    assert_eq!(report.first_reading, Some(initial));
    assert_eq!(report.second_reading, Some(dt(2020, 5, 15, 10, 30, 16)));

    assert_eq!(device.rtc.alarm, AlarmSpec::seconds_match(5));
    assert!(device.rtc.alarm_enabled);
    assert!(device.rtc.alarm_interrupt_enabled);
    assert!(!device.indicator);
    assert!(!device.log_dirty);
    assert!(device.halted);
    assert_eq!(count(&device.trace, Event::Wfi), 1);
    assert_eq!(count(&device.trace, Event::SetCalendar), 1);
    assert_eq!(count(&device.trace, Event::ArmAlarm), 1);
    assert_eq!(
        device.trace,
        vec![
            Event::IndicatorOn,
            Event::SetCalendar,
            Event::ArmAlarm,
            Event::IndicatorOff,
            Event::LogFlush,
            Event::ModeSelectShutdown,
            Event::DeepSleepFlag,
            Event::Barrier,
            Event::Wfi,
        ]
    );
}

#[test]
fn alarm_wake_clears_the_flag_and_goes_straight_back_to_sleep() {
    let woke_at = dt(2020, 5, 15, 10, 31, 5);
    let mut device = Device::power_on(woke_at, true, 2, true);
    let report = run_boot(&mut device, dt(2020, 1, 1, 0, 0, 0), 1, AlarmSpec::seconds_match(5));

    assert_eq!(report.cause, WakeCause::AlarmWake);
    assert_eq!(report.outcome, BootOutcome::Halted);
    assert_eq!(report.first_reading, None);
    assert_eq!(report.second_reading, None);

    assert_eq!(count(&device.trace, Event::ClearAlarmFlag), 1);
    assert_eq!(count(&device.trace, Event::SetCalendar), 0);
    assert_eq!(count(&device.trace, Event::ArmAlarm), 0);
    assert_eq!(count(&device.trace, Event::Wfi), 1);
    assert!(!device.rtc.alarm_pending);
    assert_eq!(device.rtc.calendar, woke_at);
    assert!(!device.indicator);
    assert!(device.halted);
}

#[test]
fn log_flush_precedes_mode_select_and_indicator_off_precedes_halt() {
    for pending in [false, true] {
        let mut device = Device::power_on(dt(2020, 5, 15, 10, 30, 15), pending, 0, true);
        run_boot(&mut device, dt(2020, 5, 15, 10, 30, 15), 1, AlarmSpec::seconds_match(5));
        assert_eq!(count(&device.trace, Event::LogFlush), 1);
        assert_eq!(count(&device.trace, Event::ModeSelectShutdown), 1);
        assert_eq!(count(&device.trace, Event::IndicatorOff), 1);
        assert_eq!(count(&device.trace, Event::Wfi), 1);
        assert!(
            position(&device.trace, Event::LogFlush)
                < position(&device.trace, Event::ModeSelectShutdown)
        );
        assert!(
            position(&device.trace, Event::IndicatorOff) < position(&device.trace, Event::Wfi)
        );
    }
}

#[test]
fn anomalous_halt_return_enters_the_fallback_loop() {
    let mut device = Device::power_on(dt(2000, 1, 1, 0, 0, 0), false, 0, false);
    let report = run_boot(&mut device, dt(2020, 5, 15, 10, 30, 15), 1, AlarmSpec::seconds_match(5));

    assert_eq!(report.outcome, BootOutcome::FallbackEntered);
    assert!(!device.halted);

    let boot_trace_len = device.trace.len();
    for beat in 1..=3usize {
        device.fallback_step();
        assert_eq!(count(&device.trace, Event::Heartbeat), beat);
    }
    assert_eq!(device.trace.len(), boot_trace_len + 3);
    assert_eq!(count(&device.trace[..boot_trace_len], Event::Heartbeat), 0);
    assert_eq!(count(&device.trace, Event::IndicatorOn), 1);
    assert_eq!(count(&device.trace, Event::Wfi), 1);
}

use wake_cycle::alarm::{AlarmMask, AlarmSpec};
use wake_cycle::datetime::RtcDateTime;
use wake_cycle::rtc::{RtcRegs, WriteProtect, WP_KEY_FIRST, WP_KEY_SECOND};

fn dt(year: u16, month: u8, day: u8, hour: u8, minute: u8, second: u8) -> RtcDateTime {
    RtcDateTime::new(year, month, day, hour, minute, second).unwrap()
}

#[test]
fn write_protection_needs_both_keys_in_order() {
    let mut r = RtcRegs::power_on(dt(2020, 1, 1, 0, 0, 0), false, 0);
    assert_eq!(r.write_protect, WriteProtect::Locked);
    r.write_protect_key(WP_KEY_FIRST);
    assert_eq!(r.write_protect, WriteProtect::FirstKey);
    r.write_protect_key(WP_KEY_SECOND);
    assert_eq!(r.write_protect, WriteProtect::Unlocked);
    r.write_protect_key(0x00);
    assert_eq!(r.write_protect, WriteProtect::Locked);
    r.write_protect_key(WP_KEY_SECOND);
    assert_eq!(r.write_protect, WriteProtect::Locked);
}

#[test]
fn calendar_round_trip_reads_back_what_was_set() {
    let mut r = RtcRegs::power_on(dt(2000, 1, 1, 0, 0, 0), false, 0);
    let value = dt(2020, 5, 15, 10, 30, 15);
    r.set_calendar(value);
    assert_eq!(r.read_calendar(), value);
}

#[test]
fn arm_alarm_programs_mask_and_value_fields() {
    let mut r = RtcRegs::power_on(dt(2020, 5, 15, 10, 30, 15), false, 3);
    let spec = AlarmSpec::seconds_match(5);
    r.arm_alarm(&spec);
    assert_eq!(r.alarm, spec);
    assert!(matches!(r.alarm.seconds.mask, AlarmMask::Match));
    assert_eq!(r.alarm.seconds.value, 5);
    assert!(matches!(r.alarm.minutes.mask, AlarmMask::Ignore));
    assert!(matches!(r.alarm.hours.mask, AlarmMask::Ignore));
    assert!(matches!(r.alarm.day.mask, AlarmMask::Ignore));
    assert!(r.alarm_enabled);
    assert!(r.alarm_interrupt_enabled);
    assert_eq!(r.write_protect, WriteProtect::Unlocked);
    assert_eq!(r.read_calendar(), dt(2020, 5, 15, 10, 30, 15));
}

#[test]
fn arm_alarm_twice_leaves_the_state_of_a_single_arming() {
    let mut once = RtcRegs::power_on(dt(2020, 5, 15, 10, 30, 15), false, 2);
    let spec = AlarmSpec::seconds_match(5);
    once.arm_alarm(&spec);
    let mut twice = once;
    twice.arm_alarm(&spec);
    assert_eq!(twice, once);
}

#[test]
fn clear_alarm_flag_clears_only_the_flag() {
    let mut r = RtcRegs::power_on(dt(2020, 5, 15, 10, 31, 5), true, 0);
    assert!(r.alarm_pending);
    let before = r;
    r.clear_alarm_flag();
    assert!(!r.alarm_pending);
    assert_eq!(r.read_calendar(), before.read_calendar());
    assert_eq!(r.alarm, before.alarm);
    assert_eq!(r.alarm_enabled, before.alarm_enabled);
}

#[test]
fn bounded_wait_respects_its_poll_budget() {
    let mut r = RtcRegs::power_on(dt(2020, 1, 1, 0, 0, 0), false, 3);
    r.unlock();
    r.disable_alarm();
    let mut short = r;
    assert!(!short.wait_alarm_write_allowed_bounded(3));
    assert!(!short.alarm_write_allowed);
    let mut long = r;
    assert!(long.wait_alarm_write_allowed_bounded(4));
    assert!(long.alarm_write_allowed);
}

#[test]
fn alarm_fires_exactly_at_the_configured_second() {
    let mut r = RtcRegs::power_on(dt(2020, 5, 15, 10, 30, 0), false, 0);
    r.arm_alarm(&AlarmSpec::seconds_match(5));
    for expected_second in 1..=4u8 {
        r.tick_second();
        assert_eq!(r.read_calendar().second, expected_second);
        assert!(!r.alarm_pending);
    }
    r.tick_second();
    assert_eq!(r.read_calendar().second, 5);
    assert!(r.alarm_pending);
}

#[test]
fn alarm_recurs_at_every_sixty_second_boundary() {
    let mut r = RtcRegs::power_on(dt(2020, 5, 15, 10, 30, 5), false, 0);
    r.arm_alarm(&AlarmSpec::seconds_match(5));
    r.clear_alarm_flag();
    for _ in 0..59 {
        r.tick_second();
        assert!(!r.alarm_pending);
    }
    r.tick_second();
    assert_eq!(r.read_calendar(), dt(2020, 5, 15, 10, 31, 5));
    assert!(r.alarm_pending);
}

#[test]
fn disabled_alarm_never_raises_the_flag() {
    let mut r = RtcRegs::power_on(dt(2020, 5, 15, 10, 30, 0), false, 0);
    r.advance_seconds(120);
    assert!(!r.alarm_pending);
    assert_eq!(r.read_calendar(), dt(2020, 5, 15, 10, 32, 0));
}

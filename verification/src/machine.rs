//! The wake state machine: the top-level control flow run once per boot.
//!
//! On every boot it reads the single alarm-pending status bit, classifies
//! the boot as a cold start or an alarm wake, drives the RTC alarm
//! scheduler and the power controller accordingly, and ends in the halt —
//! or, if the halt anomalously falls through, hands control to the
//! defensive fallback loop. The exact event sequence of both paths is
//! pinned in the contract, and the ordering law (flush once, strictly
//! before the mode-select write; indicator off once, before the halt) is
//! proved of both.

use crate::alarm::AlarmSpec;
use crate::datetime::RtcDateTime;
use crate::device::Device;
use crate::device::Event;
use crate::device::spec_sleep_events;
use crate::power::LowPowerMode;
use crate::power::PowerRegs;
use crate::rtc::RtcRegs;
use vstd::prelude::*;

verus! {

/// Why this boot happened, derived once per boot from the alarm-pending
/// status bit and never stored.
#[derive(Clone, Copy, Debug, PartialEq, Eq, Structural)]
pub enum WakeCause {
    /// The backup domain was unpowered or the alarm never fired: first
    /// power-up path.
    ColdBoot,
    /// The previously armed alarm fired and reset the device out of the
    /// halt state.
    AlarmWake,
}

/// How the boot ended.
#[derive(Clone, Copy, Debug, PartialEq, Eq, Structural)]
pub enum BootOutcome {
    /// The halt took effect; the next thing the device runs is the reset
    /// vector.
    Halted,
    /// The halt fell through — an anomaly — and the caller must run the
    /// fallback loop, never re-entering the boot path.
    FallbackEntered,
}

/// What one boot did: its classification, how it ended, and the calendar
/// values read back for diagnostics on the cold-boot path.
#[derive(Clone, Copy, Debug, PartialEq, Eq)]
pub struct BootReport {
    pub cause: WakeCause,
    pub outcome: BootOutcome,
    /// Calendar read immediately after the cold-boot calendar write.
    pub first_reading: Option<RtcDateTime>,
    /// Calendar read again after the workload delay, showing the clock ran.
    pub second_reading: Option<RtcDateTime>,
}

/// The classification rule: the alarm-pending status bit alone decides.
pub open spec fn spec_wake_cause(alarm_pending: bool) -> WakeCause {
    if alarm_pending {
        WakeCause::AlarmWake
    } else {
        WakeCause::ColdBoot
    }
}

/// Classifies the boot. A pure function of the alarm-pending status bit
/// read at the very start of the boot: bit set means alarm wake, bit clear
/// means cold boot, and no other input takes part.
pub fn classify_wake(alarm_pending: bool) -> (c: WakeCause)
    ensures
        c == spec_wake_cause(alarm_pending),
{
    if alarm_pending {
        WakeCause::AlarmWake
    } else {
        WakeCause::ColdBoot
    }
}

/// The events an alarm-wake boot appends: no recalendaring and no
/// re-arming — the alarm programmed on the one-time cold boot keeps firing
/// every minute — only the flag clear and the return to the halt.
pub open spec fn alarm_wake_events() -> Seq<Event> {
    seq![Event::IndicatorOn, Event::ClearAlarmFlag, Event::IndicatorOff] + spec_sleep_events()
}

/// The events a cold boot appends: set the calendar once, run the
/// workload, arm the once-per-minute alarm, and halt.
pub open spec fn cold_boot_events() -> Seq<Event> {
    seq![Event::IndicatorOn, Event::SetCalendar, Event::ArmAlarm, Event::IndicatorOff]
        + spec_sleep_events()
}

/// How often an event occurs in a trace.
pub open spec fn count_events(s: Seq<Event>, e: Event) -> nat
    decreases s.len(),
{
    if s.len() == 0 {
        0
    } else {
        count_events(s.drop_last(), e) + (if s.last() == e {
            1nat
        } else {
            0nat
        })
    }
}

/// Runs one boot of the wake state machine against the device.
///
/// Reads the alarm-pending bit and branches: an alarm wake clears the flag
/// and goes straight back to the halt; a cold boot enables backup-domain
/// access, writes the calendar once, reads it back, lets the workload
/// delay pass, reads the clock again to show it kept counting, arms the
/// alarm, and halts. Both paths force the indicator off and flush the log
/// before the halt. Returns how the boot was classified and how it ended;
/// on `FallbackEntered` the caller must loop `fallback_step` forever.
pub fn run_boot(
    device: &mut Device,
    initial: RtcDateTime,
    delay_seconds: u32,
    alarm: AlarmSpec,
) -> (report: BootReport)
    requires
        old(device).rtc.calendar.wf(),
        initial.wf(),
        alarm.wf(),
        !old(device).halted,
    ensures
        report.cause == spec_wake_cause(old(device).rtc.alarm_pending),
        final (device).halted == old(device).halt_takes_effect,
        final (device).halt_takes_effect == old(device).halt_takes_effect,
        report.outcome == (if old(device).halt_takes_effect {
            BootOutcome::Halted
        } else {
            BootOutcome::FallbackEntered
        }),
        !final (device).indicator,
        !final (device).log_dirty,
        final (device).deep_sleep_flag,
        final (device).power == (PowerRegs {
            backup_access: true,
            low_power_mode: LowPowerMode::Shutdown,
        }),
        old(device).rtc.alarm_pending ==> final (device).rtc == (RtcRegs {
            alarm_pending: false,
            ..old(device).rtc
        }),
        old(device).rtc.alarm_pending ==> final (device).trace@ == old(device).trace@
            + alarm_wake_events(),
        old(device).rtc.alarm_pending ==> report.first_reading is None && report.second_reading
            is None,
        !old(device).rtc.alarm_pending ==> final (device).rtc == old(device).rtc.spec_with_calendar(
            initial,
        ).spec_advanced(delay_seconds as nat).spec_armed(alarm),
        !old(device).rtc.alarm_pending ==> final (device).trace@ == old(device).trace@
            + cold_boot_events(),
        !old(device).rtc.alarm_pending ==> report.first_reading == Some(initial)
            && report.second_reading == Some(initial.spec_plus_seconds(delay_seconds as nat)),
{
    device.indicator_on();
    let cause = classify_wake(device.rtc.alarm_pending);
    match cause {
        WakeCause::AlarmWake => {
            device.note_diagnostic();
            device.clear_alarm_flag();
            device.indicator_off();
            device.enter_deepest_sleep();
            let outcome = if device.halted {
                BootOutcome::Halted
            } else {
                BootOutcome::FallbackEntered
            };
            BootReport { cause, outcome, first_reading: None, second_reading: None }
        },
        WakeCause::ColdBoot => {
            device.enable_backup_access();
            device.set_calendar(initial);
            let first = device.read_calendar();
            device.note_diagnostic();
            device.delay_seconds(delay_seconds);
            let second = device.read_calendar();
            device.note_diagnostic();
            device.arm_alarm(&alarm);
            device.indicator_off();
            device.enter_deepest_sleep();
            let outcome = if device.halted {
                BootOutcome::Halted
            } else {
                BootOutcome::FallbackEntered
            };
            BootReport {
                cause,
                outcome,
                first_reading: Some(first),
                second_reading: Some(second),
            }
        },
    }
}

/// The ordering law of every trace a boot appends: the log flush happens
/// exactly once, strictly before the one mode-select write — buffered
/// output would be lost once the transport's clock stops — and the status
/// indicator goes off exactly once, strictly before the one halt
/// instruction.
pub proof fn lemma_halt_ordering(t: Seq<Event>)
    requires
        t == alarm_wake_events() || t == cold_boot_events(),
    ensures
        count_events(t, Event::LogFlush) == 1,
        count_events(t, Event::ModeSelectShutdown) == 1,
        count_events(t, Event::IndicatorOff) == 1,
        count_events(t, Event::Wfi) == 1,
        exists|i: int| 0 <= i < t.len() && t[i] == Event::LogFlush,
        exists|i: int| 0 <= i < t.len() && t[i] == Event::IndicatorOff,
        forall|i: int, j: int|
            0 <= i < t.len() && 0 <= j < t.len() && t[i] == Event::LogFlush && t[j]
                == Event::ModeSelectShutdown ==> i < j,
        forall|i: int, j: int|
            0 <= i < t.len() && 0 <= j < t.len() && t[i] == Event::IndicatorOff && t[j]
                == Event::Wfi ==> i < j,
{
    reveal_with_fuel(count_events, 12);
    if t == alarm_wake_events() {
        assert(t =~= seq![
            Event::IndicatorOn,
            Event::ClearAlarmFlag,
            Event::IndicatorOff,
            Event::LogFlush,
            Event::ModeSelectShutdown,
            Event::DeepSleepFlag,
            Event::Barrier,
            Event::Wfi,
        ]);
        assert(t[3] == Event::LogFlush && t[2] == Event::IndicatorOff);
        assert(forall|i: int| 0 <= i < t.len() && t[i] == Event::LogFlush ==> i == 3);
        assert(forall|j: int| 0 <= j < t.len() && t[j] == Event::ModeSelectShutdown ==> j == 4);
        assert(forall|i: int| 0 <= i < t.len() && t[i] == Event::IndicatorOff ==> i == 2);
        assert(forall|j: int| 0 <= j < t.len() && t[j] == Event::Wfi ==> j == 7);
    } else {
        assert(t =~= seq![
            Event::IndicatorOn,
            Event::SetCalendar,
            Event::ArmAlarm,
            Event::IndicatorOff,
            Event::LogFlush,
            Event::ModeSelectShutdown,
            Event::DeepSleepFlag,
            Event::Barrier,
            Event::Wfi,
        ]);
        assert(t[4] == Event::LogFlush && t[3] == Event::IndicatorOff);
        assert(forall|i: int| 0 <= i < t.len() && t[i] == Event::LogFlush ==> i == 4);
        assert(forall|j: int| 0 <= j < t.len() && t[j] == Event::ModeSelectShutdown ==> j == 5);
        assert(forall|i: int| 0 <= i < t.len() && t[i] == Event::IndicatorOff ==> i == 3);
        assert(forall|j: int| 0 <= j < t.len() && t[j] == Event::Wfi ==> j == 8);
    }
}

} // verus!

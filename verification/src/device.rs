//! The device: the RTC bank, the power controller, the processor's
//! deep-sleep flag, the status indicator pin, the diagnostic log sink, and
//! a trace of the register-sequence events a run performs.
//!
//! The trace is the observable record the ordering laws and the harnesses
//! work on: every operation whose order matters (the log flush, the
//! mode-select write, the indicator, the halt instruction) appends its
//! event, so a contract can pin the exact sequence a path produces.

use crate::alarm::AlarmSpec;
use crate::datetime::RtcDateTime;
use crate::power::LowPowerMode;
use crate::power::PowerRegs;
use crate::rtc::RtcRegs;
use crate::rtc::spec_disarmed_alarm;
use crate::rtc::WriteProtect;
use vstd::prelude::*;

verus! {

/// The register-sequence events a run records, in the order they happen.
#[derive(Clone, Copy, Debug, PartialEq, Eq, Structural)]
pub enum Event {
    /// Status indicator driven high: awake.
    IndicatorOn,
    /// Calendar register written (cold boot only).
    SetCalendar,
    /// Alarm match register programmed and alarm enabled.
    ArmAlarm,
    /// Pending-alarm status flag cleared.
    ClearAlarmFlag,
    /// Status indicator driven low, immediately before every halt.
    IndicatorOff,
    /// Diagnostic log sink flushed synchronously.
    LogFlush,
    /// Deepest mode written into the mode-select field.
    ModeSelectShutdown,
    /// Processor deep-sleep request flag set.
    DeepSleepFlag,
    /// Data-synchronization barrier: the mode-select write is committed.
    Barrier,
    /// Wait-for-interrupt halt instruction executed.
    Wfi,
    /// Defensive heartbeat diagnostic from the fallback loop.
    Heartbeat,
}

/// The events `enter_deepest_sleep` appends, in order: flush first — the
/// log transport does not survive the halt — then the mode-select write,
/// the deep-sleep flag, the barrier, and the halt instruction.
pub open spec fn spec_sleep_events() -> Seq<Event> {
    seq![
        Event::LogFlush,
        Event::ModeSelectShutdown,
        Event::DeepSleepFlag,
        Event::Barrier,
        Event::Wfi,
    ]
}

/// The whole device the wake state machine drives.
pub struct Device {
    /// The RTC alarm scheduler's register bank.
    pub rtc: RtcRegs,
    /// The power controller's registers.
    pub power: PowerRegs,
    /// The processor's deep-sleep request flag.
    pub deep_sleep_flag: bool,
    /// Status indicator pin; high means awake.
    pub indicator: bool,
    /// Whether diagnostic output sits buffered and unflushed; anything
    /// still buffered when the halt cuts the transport's clock is lost.
    pub log_dirty: bool,
    /// Whether the halt has taken effect; set by the halt instruction. The
    /// next thing a halted device executes is the reset vector.
    pub halted: bool,
    /// Whether the halt instruction actually halts. Real hardware halts; a
    /// harness clears this to exercise the anomalous fall-through.
    pub halt_takes_effect: bool,
    /// The register-sequence events performed so far, oldest first.
    pub trace: Vec<Event>,
}

impl Device {
    /// The device as the reset vector finds it. The calendar, the pending
    /// flag and the RTC's grant latency are whatever the backup domain kept:
    /// a first power-up clears the flag, a scheduled wake sets it.
    pub fn power_on(
        calendar: RtcDateTime,
        alarm_pending: bool,
        allow_latency: u32,
        halt_takes_effect: bool,
    ) -> (d: Device)
        requires
            calendar.wf(),
        ensures
            d.rtc == (RtcRegs {
                calendar,
                alarm: spec_disarmed_alarm(),
                alarm_enabled: false,
                alarm_interrupt_enabled: false,
                alarm_pending,
                alarm_write_allowed: false,
                allow_latency,
                write_protect: WriteProtect::Locked,
            }),
            d.power == (PowerRegs { backup_access: false, low_power_mode: LowPowerMode::Stop0 }),
            !d.deep_sleep_flag,
            !d.indicator,
            !d.log_dirty,
            !d.halted,
            d.halt_takes_effect == halt_takes_effect,
            d.trace@ == Seq::<Event>::empty(),
    {
        Device {
            rtc: RtcRegs::power_on(calendar, alarm_pending, allow_latency),
            power: PowerRegs::power_on(),
            deep_sleep_flag: false,
            indicator: false,
            log_dirty: false,
            halted: false,
            halt_takes_effect,
            trace: Vec::new(),
        }
    }

    /// Drives the status indicator high: awake.
    pub fn indicator_on(&mut self)
        ensures
            final (self).indicator,
            final (self).trace@ == old(self).trace@.push(Event::IndicatorOn),
            final (self).rtc == old(self).rtc,
            final (self).power == old(self).power,
            final (self).deep_sleep_flag == old(self).deep_sleep_flag,
            final (self).log_dirty == old(self).log_dirty,
            final (self).halted == old(self).halted,
            final (self).halt_takes_effect == old(self).halt_takes_effect,
    {
        self.indicator = true;
        self.trace.push(Event::IndicatorOn);
    }

    /// Drives the status indicator low, immediately before a halt.
    pub fn indicator_off(&mut self)
        ensures
            !final (self).indicator,
            final (self).trace@ == old(self).trace@.push(Event::IndicatorOff),
            final (self).rtc == old(self).rtc,
            final (self).power == old(self).power,
            final (self).deep_sleep_flag == old(self).deep_sleep_flag,
            final (self).log_dirty == old(self).log_dirty,
            final (self).halted == old(self).halted,
            final (self).halt_takes_effect == old(self).halt_takes_effect,
    {
        self.indicator = false;
        self.trace.push(Event::IndicatorOff);
    }

    /// Records that a diagnostic line was emitted into the buffered log
    /// sink; it stays buffered until the next flush.
    pub fn note_diagnostic(&mut self)
        ensures
            final (self).log_dirty,
            final (self).trace@ == old(self).trace@,
            final (self).rtc == old(self).rtc,
            final (self).power == old(self).power,
            final (self).deep_sleep_flag == old(self).deep_sleep_flag,
            final (self).indicator == old(self).indicator,
            final (self).halted == old(self).halted,
            final (self).halt_takes_effect == old(self).halt_takes_effect,
    {
        self.log_dirty = true;
    }

    /// Flushes the diagnostic log sink synchronously: nothing stays
    /// buffered.
    pub fn flush_log(&mut self)
        ensures
            !final (self).log_dirty,
            final (self).trace@ == old(self).trace@.push(Event::LogFlush),
            final (self).rtc == old(self).rtc,
            final (self).power == old(self).power,
            final (self).deep_sleep_flag == old(self).deep_sleep_flag,
            final (self).indicator == old(self).indicator,
            final (self).halted == old(self).halted,
            final (self).halt_takes_effect == old(self).halt_takes_effect,
    {
        self.log_dirty = false;
        self.trace.push(Event::LogFlush);
    }

    /// Enables write access to the backup domain that hosts the RTC.
    pub fn enable_backup_access(&mut self)
        ensures
            final (self).power == (PowerRegs { backup_access: true, ..old(self).power }),
            final (self).trace@ == old(self).trace@,
            final (self).rtc == old(self).rtc,
            final (self).deep_sleep_flag == old(self).deep_sleep_flag,
            final (self).indicator == old(self).indicator,
            final (self).log_dirty == old(self).log_dirty,
            final (self).halted == old(self).halted,
            final (self).halt_takes_effect == old(self).halt_takes_effect,
    {
        self.power.enable_backup_access();
    }

    /// Writes the current calendar value; cold boot only, and the backup
    /// domain must already be writable.
    pub fn set_calendar(&mut self, dt: RtcDateTime)
        requires
            dt.wf(),
            old(self).power.backup_access,
        ensures
            final (self).rtc == old(self).rtc.spec_with_calendar(dt),
            final (self).trace@ == old(self).trace@.push(Event::SetCalendar),
            final (self).power == old(self).power,
            final (self).deep_sleep_flag == old(self).deep_sleep_flag,
            final (self).indicator == old(self).indicator,
            final (self).log_dirty == old(self).log_dirty,
            final (self).halted == old(self).halted,
            final (self).halt_takes_effect == old(self).halt_takes_effect,
    {
        self.rtc.set_calendar(dt);
        self.trace.push(Event::SetCalendar);
    }

    /// Reads the current calendar value; safe at any time.
    pub fn read_calendar(&self) -> (dt: RtcDateTime)
        ensures
            dt == self.rtc.calendar,
    {
        self.rtc.read_calendar()
    }

    /// Lets the simulated calendar run for `n` seconds (the cold-boot
    /// workload delay); the alarm comparator keeps watching meanwhile.
    pub fn delay_seconds(&mut self, n: u32)
        requires
            old(self).rtc.calendar.wf(),
        ensures
            final (self).rtc == old(self).rtc.spec_advanced(n as nat),
            final (self).trace@ == old(self).trace@,
            final (self).power == old(self).power,
            final (self).deep_sleep_flag == old(self).deep_sleep_flag,
            final (self).indicator == old(self).indicator,
            final (self).log_dirty == old(self).log_dirty,
            final (self).halted == old(self).halted,
            final (self).halt_takes_effect == old(self).halt_takes_effect,
    {
        self.rtc.advance_seconds(n);
    }

    /// Arms the alarm with the full register sequence; the backup domain
    /// must already be writable.
    pub fn arm_alarm(&mut self, a: &AlarmSpec)
        requires
            a.wf(),
            old(self).power.backup_access,
        ensures
            final (self).rtc == old(self).rtc.spec_armed(*a),
            final (self).trace@ == old(self).trace@.push(Event::ArmAlarm),
            final (self).power == old(self).power,
            final (self).deep_sleep_flag == old(self).deep_sleep_flag,
            final (self).indicator == old(self).indicator,
            final (self).log_dirty == old(self).log_dirty,
            final (self).halted == old(self).halted,
            final (self).halt_takes_effect == old(self).halt_takes_effect,
    {
        self.rtc.arm_alarm(a);
        self.trace.push(Event::ArmAlarm);
    }

    /// Clears the pending-alarm status flag.
    pub fn clear_alarm_flag(&mut self)
        ensures
            final (self).rtc == (RtcRegs { alarm_pending: false, ..old(self).rtc }),
            final (self).trace@ == old(self).trace@.push(Event::ClearAlarmFlag),
            final (self).power == old(self).power,
            final (self).deep_sleep_flag == old(self).deep_sleep_flag,
            final (self).indicator == old(self).indicator,
            final (self).log_dirty == old(self).log_dirty,
            final (self).halted == old(self).halted,
            final (self).halt_takes_effect == old(self).halt_takes_effect,
    {
        self.rtc.clear_alarm_flag();
        self.trace.push(Event::ClearAlarmFlag);
    }

    /// The transition into the deepest halt state: flush the log sink,
    /// enable backup-domain access if it is not yet enabled and select the
    /// shutdown mode, set the processor's deep-sleep flag, commit with a
    /// barrier, and halt. Under normal hardware behaviour execution never
    /// continues past the halt — the device resets into the program start —
    /// which the model states as `halted` taking the value of
    /// `halt_takes_effect`; a continuation with `halted` still false is the
    /// anomaly the fallback loop guards.
    pub fn enter_deepest_sleep(&mut self)
        ensures
            !final (self).log_dirty,
            final (self).power == (PowerRegs {
                backup_access: true,
                low_power_mode: LowPowerMode::Shutdown,
            }),
            final (self).deep_sleep_flag,
            final (self).halted == old(self).halt_takes_effect,
            final (self).trace@ == old(self).trace@ + spec_sleep_events(),
            final (self).rtc == old(self).rtc,
            final (self).indicator == old(self).indicator,
            final (self).halt_takes_effect == old(self).halt_takes_effect,
    {
        self.flush_log();
        if !self.power.backup_access {
            self.power.enable_backup_access();
        }
        self.power.select_shutdown();
        self.trace.push(Event::ModeSelectShutdown);
        self.deep_sleep_flag = true;
        self.trace.push(Event::DeepSleepFlag);
        self.trace.push(Event::Barrier);
        self.halted = self.halt_takes_effect;
        self.trace.push(Event::Wfi);
    }

    /// One turn of the defensive fallback loop: emit a heartbeat
    /// diagnostic. Reached only if the halt unexpectedly fell through;
    /// never part of a normal cycle.
    pub fn fallback_step(&mut self)
        ensures
            final (self).trace@ == old(self).trace@.push(Event::Heartbeat),
            final (self).rtc == old(self).rtc,
            final (self).power == old(self).power,
            final (self).deep_sleep_flag == old(self).deep_sleep_flag,
            final (self).indicator == old(self).indicator,
            final (self).log_dirty == old(self).log_dirty,
            final (self).halted == old(self).halted,
            final (self).halt_takes_effect == old(self).halt_takes_effect,
    {
        self.trace.push(Event::Heartbeat);
    }
}

} // verus!

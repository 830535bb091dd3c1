//! The RTC alarm scheduler: calendar register, alarm match register,
//! control and status bits, and the write-protection key register.
//!
//! The register bank is held as plain data so that every register sequence
//! the scheduler performs — the two-step write-protection unlock, disabling
//! the alarm before reprogramming it, the poll of the write-allowed status
//! bit, and the joint enable of the alarm and its interrupt — is stated as
//! an exact contract and proved. Each operation's post-state is a spec
//! function of its pre-state, so the laws (arming is idempotent, a calendar
//! write reads back unchanged) are proved once over the model and hold of
//! every caller.

use crate::alarm::AlarmField;
use crate::alarm::AlarmMask;
use crate::alarm::AlarmSpec;
use crate::datetime::RtcDateTime;
use vstd::prelude::*;

verus! {

/// First byte of the fixed two-step write-protection unlock sequence.
pub const WP_KEY_FIRST: u8 = 0xCA;

/// Second byte of the fixed two-step write-protection unlock sequence.
pub const WP_KEY_SECOND: u8 = 0x53;

/// State of the RTC register write protection.
#[derive(Clone, Copy, Debug, PartialEq, Eq, Structural)]
pub enum WriteProtect {
    /// Protected registers refuse writes.
    Locked,
    /// The first key byte has been written; the second completes the unlock.
    FirstKey,
    /// Protected registers accept writes.
    Unlocked,
}

/// The RTC peripheral's registers.
#[derive(Clone, Copy, Debug, PartialEq, Eq, Structural)]
pub struct RtcRegs {
    /// Calendar register; keeps counting across the halt state.
    pub calendar: RtcDateTime,
    /// Alarm match register: four (value, mask) fields.
    pub alarm: AlarmSpec,
    /// Control register: alarm-enable bit.
    pub alarm_enabled: bool,
    /// Control register: alarm-interrupt-enable bit.
    pub alarm_interrupt_enabled: bool,
    /// Status register: pending-alarm flag, set by hardware on a match and
    /// cleared only by software.
    pub alarm_pending: bool,
    /// Status register: alarm-write-allowed flag, granted by hardware some
    /// polls after the alarm is disabled.
    pub alarm_write_allowed: bool,
    /// How many further status reads the hardware takes before it grants
    /// write access to the alarm register; a test sets this to model a slow
    /// or instant grant.
    pub allow_latency: u32,
    /// Write-protection state driven by the key register.
    pub write_protect: WriteProtect,
}

/// The alarm register's power-on contents: nothing armed, every field
/// ignored.
pub open spec fn spec_disarmed_alarm() -> AlarmSpec {
    AlarmSpec {
        seconds: AlarmField { value: 0, mask: AlarmMask::Ignore },
        minutes: AlarmField { value: 0, mask: AlarmMask::Ignore },
        hours: AlarmField { value: 0, mask: AlarmMask::Ignore },
        day: AlarmField { value: 1, mask: AlarmMask::Ignore },
    }
}

/// How one write to the key register moves the write-protection state: the
/// first key byte always starts the sequence, the second completes it from
/// `FirstKey`, and any other write re-locks.
pub open spec fn spec_wp_step(wp: WriteProtect, key: u8) -> WriteProtect {
    if key == WP_KEY_FIRST {
        WriteProtect::FirstKey
    } else if wp is FirstKey && key == WP_KEY_SECOND {
        WriteProtect::Unlocked
    } else {
        WriteProtect::Locked
    }
}

impl RtcRegs {
    /// Register fields a live bank always satisfies: the calendar holds a
    /// representable value and the alarm register's values are in range.
    pub open spec fn wf(self) -> bool {
        &&& self.calendar.wf()
        &&& self.alarm.in_range()
    }

    /// The bank as it stands when the backup domain powers on: alarm
    /// disarmed and protected. The calendar, the pending flag and the grant
    /// latency are whatever the power-on context left behind — a cold boot
    /// resets them, an alarm wake finds the flag set and the clock advanced.
    pub fn power_on(calendar: RtcDateTime, alarm_pending: bool, allow_latency: u32) -> (r:
        RtcRegs)
        requires
            calendar.wf(),
        ensures
            r == (RtcRegs {
                calendar,
                alarm: spec_disarmed_alarm(),
                alarm_enabled: false,
                alarm_interrupt_enabled: false,
                alarm_pending,
                alarm_write_allowed: false,
                allow_latency,
                write_protect: WriteProtect::Locked,
            }),
            r.wf(),
    {
        RtcRegs {
            calendar,
            alarm: AlarmSpec {
                seconds: AlarmField { value: 0, mask: AlarmMask::Ignore },
                minutes: AlarmField { value: 0, mask: AlarmMask::Ignore },
                hours: AlarmField { value: 0, mask: AlarmMask::Ignore },
                day: AlarmField { value: 1, mask: AlarmMask::Ignore },
            },
            alarm_enabled: false,
            alarm_interrupt_enabled: false,
            alarm_pending,
            alarm_write_allowed: false,
            allow_latency,
            write_protect: WriteProtect::Locked,
        }
    }

    /// One write to the write-protection key register.
    pub fn write_protect_key(&mut self, key: u8)
        ensures
            *final(self) == (RtcRegs {
                write_protect: spec_wp_step(old(self).write_protect, key),
                ..*old(self)
            }),
    {
        if key == WP_KEY_FIRST {
            self.write_protect = WriteProtect::FirstKey;
        } else if matches!(self.write_protect, WriteProtect::FirstKey) && key == WP_KEY_SECOND {
            self.write_protect = WriteProtect::Unlocked;
        } else {
            self.write_protect = WriteProtect::Locked;
        }
    }

    /// The two-step unlock: writing the two fixed key bytes in order leaves
    /// the protected registers writable, from any starting state.
    pub fn unlock(&mut self)
        ensures
            *final(self) == (RtcRegs { write_protect: WriteProtect::Unlocked, ..*old(self) }),
    {
        self.write_protect_key(WP_KEY_FIRST);
        self.write_protect_key(WP_KEY_SECOND);
    }

    /// The bank after a calendar write.
    pub open spec fn spec_with_calendar(self, dt: RtcDateTime) -> RtcRegs {
        RtcRegs { calendar: dt, ..self }
    }

    /// Writes the calendar register. To be called at most once per power-on
    /// lifetime of the backup domain, on a cold boot; the caller must have
    /// backup-domain write access enabled.
    pub fn set_calendar(&mut self, dt: RtcDateTime)
        requires
            dt.wf(),
        ensures
            *final(self) == old(self).spec_with_calendar(dt),
    {
        self.calendar = dt;
    }

    /// Reads the calendar register; safe at any time.
    pub fn read_calendar(&self) -> (dt: RtcDateTime)
        ensures
            dt == self.calendar,
    {
        self.calendar
    }

    /// A calendar value read back immediately after it was written is the
    /// value written, before any further time has elapsed.
    pub proof fn lemma_calendar_round_trip(self, dt: RtcDateTime)
        ensures
            self.spec_with_calendar(dt).calendar == dt,
    {
    }

    /// Clears the alarm-enable bit so the alarm register may be rewritten.
    pub fn disable_alarm(&mut self)
        requires
            old(self).write_protect is Unlocked,
        ensures
            *final(self) == (RtcRegs { alarm_enabled: false, ..*old(self) }),
    {
        self.alarm_enabled = false;
    }

    /// One read of the write-allowed status bit. While the alarm is disabled
    /// the hardware grants access after `allow_latency` further reads; while
    /// it is enabled the bit stays clear.
    pub fn poll_alarm_write_allowed(&mut self) -> (allowed: bool)
        ensures
            allowed == final (self).alarm_write_allowed,
            old(self).alarm_write_allowed ==> *final(self) == *old(self),
            !old(self).alarm_write_allowed && old(self).alarm_enabled ==> *final(self) == *old(
                self,
            ),
            !old(self).alarm_write_allowed && !old(self).alarm_enabled && old(self).allow_latency
                > 0 ==> *final(self) == (RtcRegs {
                allow_latency: (old(self).allow_latency - 1) as u32,
                ..*old(self)
            }),
            !old(self).alarm_write_allowed && !old(self).alarm_enabled && old(self).allow_latency
                == 0 ==> *final(self) == (RtcRegs { alarm_write_allowed: true, ..*old(self) }),
    {
        if self.alarm_write_allowed {
            return true;
        }
        if !self.alarm_enabled {
            if self.allow_latency > 0 {
                self.allow_latency = self.allow_latency - 1;
            } else {
                self.alarm_write_allowed = true;
            }
        }
        self.alarm_write_allowed
    }

    /// Busy-polls the write-allowed status bit until the hardware sets it.
    /// The wait has no timeout: this mirrors the production behaviour, and a
    /// bank whose grant never comes would hang here. In the model the grant
    /// arrives after `allow_latency` reads, which bounds the loop.
    pub fn wait_alarm_write_allowed(&mut self)
        requires
            !old(self).alarm_enabled,
        ensures
            *final(self) == (RtcRegs {
                alarm_write_allowed: true,
                allow_latency: if old(self).alarm_write_allowed {
                    old(self).allow_latency
                } else {
                    0u32
                },
                ..*old(self)
            }),
    {
        while !self.alarm_write_allowed
            invariant
                !self.alarm_enabled,
                self.calendar == old(self).calendar,
                self.alarm == old(self).alarm,
                self.alarm_interrupt_enabled == old(self).alarm_interrupt_enabled,
                self.alarm_pending == old(self).alarm_pending,
                self.write_protect == old(self).write_protect,
                old(self).alarm_write_allowed ==> self.alarm_write_allowed,
                self.alarm_write_allowed ==> self.allow_latency == (if old(
                    self,
                ).alarm_write_allowed {
                    old(self).allow_latency
                } else {
                    0u32
                }),
                !self.alarm_write_allowed ==> self.allow_latency <= old(self).allow_latency,
            decreases self.allow_latency + (if self.alarm_write_allowed { 0int } else { 1int }),
        {
            let _ = self.poll_alarm_write_allowed();
        }
    }

    /// Bounded form of the readiness wait for harnesses that must not hang:
    /// polls at most `max_polls` times and reports whether access was
    /// granted. Succeeds exactly when access was already granted or the
    /// alarm is disabled and the hardware's remaining latency is below the
    /// bound.
    pub fn wait_alarm_write_allowed_bounded(&mut self, max_polls: u32) -> (ok: bool)
        ensures
            ok == final (self).alarm_write_allowed,
            old(self).alarm_write_allowed ==> *final(self) == *old(self) && ok,
            !old(self).alarm_write_allowed && old(self).alarm_enabled ==> *final(self) == *old(
                self,
            ) && !ok,
            !old(self).alarm_write_allowed && !old(self).alarm_enabled && old(self).allow_latency
                < max_polls ==> *final(self) == (RtcRegs {
                alarm_write_allowed: true,
                allow_latency: 0,
                ..*old(self)
            }) && ok,
            !old(self).alarm_write_allowed && !old(self).alarm_enabled && old(self).allow_latency
                >= max_polls ==> *final(self) == (RtcRegs {
                allow_latency: (old(self).allow_latency - max_polls) as u32,
                ..*old(self)
            }) && !ok,
    {
        let mut i: u32 = 0;
        while i < max_polls && !self.alarm_write_allowed
            invariant
                i <= max_polls,
                self.calendar == old(self).calendar,
                self.alarm == old(self).alarm,
                self.alarm_enabled == old(self).alarm_enabled,
                self.alarm_interrupt_enabled == old(self).alarm_interrupt_enabled,
                self.alarm_pending == old(self).alarm_pending,
                self.write_protect == old(self).write_protect,
                old(self).alarm_write_allowed ==> *self == *old(self),
                !old(self).alarm_write_allowed && old(self).alarm_enabled ==> *self == *old(self),
                !old(self).alarm_write_allowed && !old(self).alarm_enabled
                    && !self.alarm_write_allowed ==> i <= old(self).allow_latency
                    && self.allow_latency == old(self).allow_latency - i,
                !old(self).alarm_write_allowed && !old(self).alarm_enabled
                    && self.alarm_write_allowed ==> self.allow_latency == 0 && i == old(
                    self,
                ).allow_latency + 1,
            decreases max_polls - i,
        {
            let _ = self.poll_alarm_write_allowed();
            i = i + 1;
        }
        self.alarm_write_allowed
    }

    /// Writes the mask bits and match-value bits of all four alarm fields.
    pub fn write_alarm_match(&mut self, a: &AlarmSpec)
        requires
            old(self).write_protect is Unlocked,
            old(self).alarm_write_allowed,
        ensures
            *final(self) == (RtcRegs { alarm: *a, ..*old(self) }),
    {
        self.alarm = *a;
    }

    /// Sets the alarm-enable and alarm-interrupt-enable bits together. The
    /// hardware withdraws alarm-register write access once the alarm is
    /// active again, so the write-allowed flag and its grant countdown
    /// clear.
    pub fn enable_alarm(&mut self)
        requires
            old(self).write_protect is Unlocked,
        ensures
            *final(self) == (RtcRegs {
                alarm_enabled: true,
                alarm_interrupt_enabled: true,
                alarm_write_allowed: false,
                allow_latency: 0,
                ..*old(self)
            }),
    {
        self.alarm_enabled = true;
        self.alarm_interrupt_enabled = true;
        self.alarm_write_allowed = false;
        self.allow_latency = 0;
    }

    /// Clears the pending-alarm status flag. Required before re-arming or
    /// before an alarm-wake boot halts again, otherwise the stale flag would
    /// re-classify the next boot as an alarm wake.
    pub fn clear_alarm_flag(&mut self)
        ensures
            *final(self) == (RtcRegs { alarm_pending: false, ..*old(self) }),
    {
        self.alarm_pending = false;
    }

    /// The bank after the full arming sequence: the match register holds the
    /// given specification, alarm and interrupt are enabled, write access is
    /// withdrawn and the registers are left unlocked. A function of the
    /// pre-state's calendar and pending flag alone besides the
    /// specification.
    pub open spec fn spec_armed(self, a: AlarmSpec) -> RtcRegs {
        RtcRegs {
            calendar: self.calendar,
            alarm: a,
            alarm_enabled: true,
            alarm_interrupt_enabled: true,
            alarm_pending: self.alarm_pending,
            alarm_write_allowed: false,
            allow_latency: 0,
            write_protect: WriteProtect::Unlocked,
        }
    }

    /// The full arming sequence: two-step unlock, clear the alarm-enable bit,
    /// busy-poll the write-allowed status bit, write all four (value, mask)
    /// fields, then set alarm-enable and alarm-interrupt-enable together.
    pub fn arm_alarm(&mut self, a: &AlarmSpec)
        requires
            a.wf(),
        ensures
            *final(self) == old(self).spec_armed(*a),
    {
        self.unlock();
        self.disable_alarm();
        self.wait_alarm_write_allowed();
        self.write_alarm_match(a);
        self.enable_alarm();
    }

    /// Arming is idempotent: arming twice with the same specification leaves
    /// exactly the register state a single arming leaves, mask and
    /// match-value fields included.
    pub proof fn lemma_arm_alarm_idempotent(self, a: AlarmSpec)
        ensures
            self.spec_armed(a).spec_armed(a) == self.spec_armed(a),
    {
    }

    /// The bank after one simulated second: the calendar ticks, and the
    /// pending flag rises if the enabled alarm matches the new calendar
    /// value.
    pub open spec fn spec_ticked(self) -> RtcRegs {
        RtcRegs {
            calendar: self.calendar.spec_next(),
            alarm_pending: self.alarm_pending || (self.alarm_enabled && self.alarm.fires_at(
                self.calendar.spec_next(),
            )),
            ..self
        }
    }

    /// Advances the simulated calendar by one second, raising the pending
    /// flag on an alarm match as the hardware comparator does.
    pub fn tick_second(&mut self)
        requires
            old(self).calendar.wf(),
        ensures
            *final(self) == old(self).spec_ticked(),
            final (self).calendar.wf(),
    {
        let next = self.calendar.next();
        self.calendar = next;
        if self.alarm_enabled && self.alarm.check_fires(&next) {
            self.alarm_pending = true;
        }
    }

    /// With a seconds-only alarm enabled, one simulated second raises the
    /// pending flag exactly when the new calendar second equals the
    /// configured value: the comparator watches nothing else.
    pub proof fn lemma_tick_pending_exactly_at_match(self)
        requires
            self.alarm.seconds_only(),
            self.alarm_enabled,
            !self.alarm_pending,
        ensures
            self.spec_ticked().alarm_pending <==> self.calendar.spec_next().second
                == self.alarm.seconds.value,
    {
        crate::alarm::lemma_seconds_alarm_exact(self.alarm, self.calendar.spec_next());
    }

    /// Whether the alarm matches at any of the next `n` whole seconds.
    pub open spec fn fired_within(self, n: nat) -> bool {
        exists|j: int|
            1 <= j <= n && #[trigger] self.alarm.fires_at(self.calendar.spec_plus_seconds(j as nat))
    }

    /// Unrolls `fired_within` by one second.
    proof fn lemma_fired_within_step(self, i: nat)
        ensures
            self.fired_within(i + 1) == (self.fired_within(i) || self.alarm.fires_at(
                self.calendar.spec_plus_seconds(i + 1),
            )),
    {
        if self.fired_within(i + 1) {
            let j = choose|j: int|
                1 <= j <= i + 1 && #[trigger] self.alarm.fires_at(
                    self.calendar.spec_plus_seconds(j as nat),
                );
            if j <= i {
                assert(self.fired_within(i));
            } else {
                assert(j == i + 1);
            }
        }
        if self.fired_within(i) {
            let j = choose|j: int|
                1 <= j <= i && #[trigger] self.alarm.fires_at(
                    self.calendar.spec_plus_seconds(j as nat),
                );
            assert(1 <= j <= i + 1 && self.alarm.fires_at(
                self.calendar.spec_plus_seconds(j as nat),
            ));
        }
        if self.alarm.fires_at(self.calendar.spec_plus_seconds(i + 1)) {
            let j = i + 1;
            assert(1 <= j <= i + 1 && self.alarm.fires_at(
                self.calendar.spec_plus_seconds(j as nat),
            ));
        }
    }

    /// The bank after `n` simulated seconds: the calendar advances, and the
    /// pending flag rises exactly if the enabled alarm matched at one of the
    /// seconds passed through.
    pub open spec fn spec_advanced(self, n: nat) -> RtcRegs {
        RtcRegs {
            calendar: self.calendar.spec_plus_seconds(n),
            alarm_pending: self.alarm_pending || (self.alarm_enabled && self.fired_within(n)),
            ..self
        }
    }

    /// Advances the simulated calendar by `n` seconds, one tick at a time.
    pub fn advance_seconds(&mut self, n: u32)
        requires
            old(self).calendar.wf(),
        ensures
            *final(self) == old(self).spec_advanced(n as nat),
            final (self).calendar.wf(),
    {
        let ghost pre = *old(self);
        let mut i: u32 = 0;
        while i < n
            invariant
                i <= n,
                self.calendar == pre.calendar.spec_plus_seconds(i as nat),
                self.calendar.wf(),
                self.alarm == pre.alarm,
                self.alarm_enabled == pre.alarm_enabled,
                self.alarm_interrupt_enabled == pre.alarm_interrupt_enabled,
                self.alarm_write_allowed == pre.alarm_write_allowed,
                self.allow_latency == pre.allow_latency,
                self.write_protect == pre.write_protect,
                self.alarm_pending == (pre.alarm_pending || (pre.alarm_enabled
                    && pre.fired_within(i as nat))),
            decreases n - i,
        {
            self.tick_second();
            proof {
                pre.lemma_fired_within_step(i as nat);
                assert(pre.calendar.spec_plus_seconds((i + 1) as nat)
                    == pre.calendar.spec_plus_seconds(i as nat).spec_next());
            }
            i = i + 1;
        }
        proof {
            assert(*self == pre.spec_advanced(n as nat));
        }
    }
}

} // verus!

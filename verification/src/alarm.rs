//! The alarm match register contents: four (value, mask) fields.
//!
//! Masking every field except seconds turns the full calendar-match alarm
//! into a once-per-minute periodic timer: the match condition holds exactly
//! when the calendar's seconds field equals the configured value, and it
//! recurs at every later 60-second boundary. Both facts are proved here.

use crate::datetime::RtcDateTime;
use vstd::prelude::*;

verus! {

/// Whether one calendar field takes part in the alarm comparison.
#[derive(Clone, Copy, Debug, PartialEq, Eq, Structural)]
pub enum AlarmMask {
    /// The field must equal its configured value for the alarm to fire.
    Match,
    /// The field is ignored by the comparison.
    Ignore,
}

/// One (value, mask) field of the alarm match register.
#[derive(Clone, Copy, Debug, PartialEq, Eq, Structural)]
pub struct AlarmField {
    pub value: u8,
    pub mask: AlarmMask,
}

/// The four (value, mask) fields of the alarm match register: seconds,
/// minutes, hours and day-of-month.
#[derive(Clone, Copy, Debug, PartialEq, Eq, Structural)]
pub struct AlarmSpec {
    pub seconds: AlarmField,
    pub minutes: AlarmField,
    pub hours: AlarmField,
    pub day: AlarmField,
}

/// One field matches a calendar component when it is ignored or equal.
pub open spec fn field_matches(f: AlarmField, v: u8) -> bool {
    f.mask is Ignore || f.value == v
}

impl AlarmSpec {
    /// Every configured value fits its calendar field.
    pub open spec fn in_range(self) -> bool {
        &&& self.seconds.value < 60
        &&& self.minutes.value < 60
        &&& self.hours.value < 24
        &&& 1 <= self.day.value <= 31
    }

    /// A specification worth arming: values in range and at least one field
    /// set to match, otherwise the alarm never fires.
    pub open spec fn wf(self) -> bool {
        &&& self.in_range()
        &&& (self.seconds.mask is Match || self.minutes.mask is Match || self.hours.mask is Match
            || self.day.mask is Match)
    }

    /// Only the seconds field takes part in the comparison.
    pub open spec fn seconds_only(self) -> bool {
        &&& self.seconds.mask is Match
        &&& self.minutes.mask is Ignore
        &&& self.hours.mask is Ignore
        &&& self.day.mask is Ignore
    }

    /// The alarm match condition against a calendar value.
    pub open spec fn fires_at(self, dt: RtcDateTime) -> bool {
        &&& field_matches(self.seconds, dt.second)
        &&& field_matches(self.minutes, dt.minute)
        &&& field_matches(self.hours, dt.hour)
        &&& field_matches(self.day, dt.day)
    }

    /// The once-per-minute specification: match on the given second, ignore
    /// minutes, hours and day.
    pub fn seconds_match(second: u8) -> (a: AlarmSpec)
        requires
            second < 60,
        ensures
            a.wf(),
            a.seconds_only(),
            a.seconds.value == second,
    {
        AlarmSpec {
            seconds: AlarmField { value: second, mask: AlarmMask::Match },
            minutes: AlarmField { value: 0, mask: AlarmMask::Ignore },
            hours: AlarmField { value: 0, mask: AlarmMask::Ignore },
            day: AlarmField { value: 1, mask: AlarmMask::Ignore },
        }
    }

    /// The match condition, executable form.
    pub fn check_fires(&self, dt: &RtcDateTime) -> (b: bool)
        ensures
            b == self.fires_at(*dt),
    {
        let sec = matches!(self.seconds.mask, AlarmMask::Ignore) || self.seconds.value
            == dt.second;
        let min = matches!(self.minutes.mask, AlarmMask::Ignore) || self.minutes.value
            == dt.minute;
        let hour = matches!(self.hours.mask, AlarmMask::Ignore) || self.hours.value == dt.hour;
        let day = matches!(self.day.mask, AlarmMask::Ignore) || self.day.value == dt.day;
        sec && min && hour && day
    }
}

/// A seconds-only alarm fires exactly when the calendar's seconds field
/// equals the configured value; no other calendar field takes part.
pub proof fn lemma_seconds_alarm_exact(a: AlarmSpec, dt: RtcDateTime)
    requires
        a.seconds_only(),
    ensures
        a.fires_at(dt) <==> dt.second == a.seconds.value,
{
}

/// A seconds-only alarm recurs at every 60-second boundary: advancing the
/// calendar by any whole number of minutes leaves the match condition
/// unchanged, so a firing alarm fires again one minute later.
pub proof fn lemma_seconds_alarm_minute_period(a: AlarmSpec, dt: RtcDateTime, k: nat)
    requires
        a.seconds_only(),
        dt.second < 60,
    ensures
        a.fires_at(dt.spec_plus_seconds(60 * k)) <==> a.fires_at(dt),
{
    dt.lemma_plus_full_minutes_second(k);
}

} // verus!

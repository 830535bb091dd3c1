//! Calendar values as kept by the RTC.
//!
//! The RTC's calendar counts in whole seconds over a two-digit year
//! (2000-2099, the range the hardware's year register can hold) and keeps
//! counting across the halt transition as long as its backup power and
//! oscillator stay active. `spec_next` is the mathematical model of one
//! calendar tick; the executable operations are proved against it.

use vstd::arithmetic::div_mod::{lemma_add_mod_noop, lemma_mod_multiples_vanish, lemma_small_mod};
use vstd::prelude::*;

verus! {

/// First year the calendar can represent.
pub const MIN_YEAR: u16 = 2000;

/// Last year the calendar can represent; the next tick wraps to `MIN_YEAR`.
pub const MAX_YEAR: u16 = 2099;

/// A calendar value: year, month, day, hour, minute, second.
#[derive(Clone, Copy, Debug, PartialEq, Eq, Structural)]
pub struct RtcDateTime {
    pub year: u16,
    pub month: u8,
    pub day: u8,
    pub hour: u8,
    pub minute: u8,
    pub second: u8,
}

/// Gregorian leap-year rule.
pub open spec fn spec_is_leap_year(year: int) -> bool {
    year % 4 == 0 && (year % 100 != 0 || year % 400 == 0)
}

/// Number of days in the given month of the given year.
pub open spec fn spec_days_in_month(year: int, month: int) -> int {
    if month == 2 {
        if spec_is_leap_year(year) {
            29
        } else {
            28
        }
    } else if month == 4 || month == 6 || month == 9 || month == 11 {
        30
    } else {
        31
    }
}

/// Gregorian leap-year rule, executable form.
pub fn is_leap_year(year: u16) -> (r: bool)
    ensures
        r == spec_is_leap_year(year as int),
{
    year % 4 == 0 && (year % 100 != 0 || year % 400 == 0)
}

/// Number of days in the given month, executable form.
pub fn days_in_month(year: u16, month: u8) -> (d: u8)
    requires
        1 <= month <= 12,
    ensures
        d as int == spec_days_in_month(year as int, month as int),
{
    if month == 2 {
        if is_leap_year(year) {
            29
        } else {
            28
        }
    } else if month == 4 || month == 6 || month == 9 || month == 11 {
        30
    } else {
        31
    }
}

impl RtcDateTime {
    /// A calendar value the hardware can hold: fields in range and the day
    /// valid for its month and year.
    pub open spec fn wf(self) -> bool {
        &&& MIN_YEAR <= self.year <= MAX_YEAR
        &&& 1 <= self.month <= 12
        &&& 1 <= self.day as int <= spec_days_in_month(self.year as int, self.month as int)
        &&& self.hour < 24
        &&& self.minute < 60
        &&& self.second < 60
    }

    /// Builds a calendar value, rejecting any combination of fields the
    /// hardware calendar cannot hold.
    pub fn new(year: u16, month: u8, day: u8, hour: u8, minute: u8, second: u8) -> (r: Option<
        RtcDateTime,
    >)
        ensures
            ({
                let dt = RtcDateTime { year, month, day, hour, minute, second };
                r == if dt.wf() {
                    Some(dt)
                } else {
                    None::<RtcDateTime>
                }
            }),
    {
        let dt = RtcDateTime { year, month, day, hour, minute, second };
        if MIN_YEAR <= year && year <= MAX_YEAR && 1 <= month && month <= 12 && 1 <= day
            && day <= days_in_month(year, month) && hour < 24 && minute < 60 && second < 60 {
            Some(dt)
        } else {
            None
        }
    }

    /// The calendar value one second later, with rollover through minute,
    /// hour, day, month and year; the year wraps from `MAX_YEAR` back to
    /// `MIN_YEAR` as the two-digit year register does.
    pub open spec fn spec_next(self) -> RtcDateTime {
        if self.second < 59 {
            RtcDateTime { second: (self.second + 1) as u8, ..self }
        } else if self.minute < 59 {
            RtcDateTime { second: 0, minute: (self.minute + 1) as u8, ..self }
        } else if self.hour < 23 {
            RtcDateTime { second: 0, minute: 0, hour: (self.hour + 1) as u8, ..self }
        } else if (self.day as int) < spec_days_in_month(self.year as int, self.month as int) {
            RtcDateTime { second: 0, minute: 0, hour: 0, day: (self.day + 1) as u8, ..self }
        } else if self.month < 12 {
            RtcDateTime {
                second: 0,
                minute: 0,
                hour: 0,
                day: 1,
                month: (self.month + 1) as u8,
                ..self
            }
        } else if self.year < MAX_YEAR {
            RtcDateTime {
                second: 0,
                minute: 0,
                hour: 0,
                day: 1,
                month: 1,
                year: (self.year + 1) as u16,
            }
        } else {
            RtcDateTime { second: 0, minute: 0, hour: 0, day: 1, month: 1, year: MIN_YEAR }
        }
    }

    /// The calendar value `n` seconds later.
    pub open spec fn spec_plus_seconds(self, n: nat) -> RtcDateTime
        decreases n,
    {
        if n == 0 {
            self
        } else {
            self.spec_plus_seconds((n - 1) as nat).spec_next()
        }
    }

    /// The seconds field advances modulo 60: after `n` ticks it reads
    /// `(second + n) % 60`, whatever the other fields do.
    pub proof fn lemma_plus_seconds_second(self, n: nat)
        requires
            self.second < 60,
        ensures
            self.spec_plus_seconds(n).second as int == (self.second + n) % 60,
        decreases n,
    {
        if n == 0 {
            lemma_small_mod(self.second as nat, 60);
        } else {
            self.lemma_plus_seconds_second((n - 1) as nat);
            let prev = self.spec_plus_seconds((n - 1) as nat);
            let x = self.second + n - 1;
            lemma_add_mod_noop(x, 1, 60);
            lemma_small_mod(1, 60);
            if prev.second < 59 {
                lemma_small_mod((prev.second + 1) as nat, 60);
            }
        }
    }

    /// Advancing by whole minutes returns the seconds field to its
    /// starting value.
    pub proof fn lemma_plus_full_minutes_second(self, k: nat)
        requires
            self.second < 60,
        ensures
            self.spec_plus_seconds(60 * k).second == self.second,
    {
        self.lemma_plus_seconds_second(60 * k);
        lemma_mod_multiples_vanish(k as int, self.second as int, 60);
        lemma_small_mod(self.second as nat, 60);
    }

    /// One calendar tick, proved against `spec_next`.
    pub fn next(&self) -> (r: RtcDateTime)
        requires
            self.wf(),
        ensures
            r == self.spec_next(),
            r.wf(),
    {
        if self.second < 59 {
            RtcDateTime { second: self.second + 1, ..*self }
        } else if self.minute < 59 {
            RtcDateTime { second: 0, minute: self.minute + 1, ..*self }
        } else if self.hour < 23 {
            RtcDateTime { second: 0, minute: 0, hour: self.hour + 1, ..*self }
        } else if self.day < days_in_month(self.year, self.month) {
            RtcDateTime { second: 0, minute: 0, hour: 0, day: self.day + 1, ..*self }
        } else if self.month < 12 {
            RtcDateTime { second: 0, minute: 0, hour: 0, day: 1, month: self.month + 1, ..*self }
        } else if self.year < MAX_YEAR {
            RtcDateTime { second: 0, minute: 0, hour: 0, day: 1, month: 1, year: self.year + 1 }
        } else {
            RtcDateTime { second: 0, minute: 0, hour: 0, day: 1, month: 1, year: MIN_YEAR }
        }
    }

    /// The calendar value `n` seconds later, proved against
    /// `spec_plus_seconds`.
    pub fn plus_seconds(&self, n: u32) -> (r: RtcDateTime)
        requires
            self.wf(),
        ensures
            r == self.spec_plus_seconds(n as nat),
            r.wf(),
    {
        let mut cur: RtcDateTime = *self;
        let mut i: u32 = 0;
        while i < n
            invariant
                i <= n,
                cur == self.spec_plus_seconds(i as nat),
                cur.wf(),
            decreases n - i,
        {
            cur = cur.next();
            i = i + 1;
        }
        cur
    }
}

} // verus!

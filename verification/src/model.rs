//! The mathematical model: a clock reading over unbounded integers, its
//! microsecond count, and the reading that a count stands for.

use vstd::prelude::*;
use crate::range::Component;

verus! {

/// Microseconds in an hour.
pub const USECS_PER_HOUR: i64 = 3_600_000_000;

/// Microseconds in a minute.
pub const USECS_PER_MINUTE: i64 = 60_000_000;

/// Microseconds in a second.
pub const USECS_PER_SEC: i64 = 1_000_000;

/// Minutes in an hour.
pub const MINS_PER_HOUR: i64 = 60;

/// Seconds in a minute.
pub const SEC_PER_MIN: i64 = 60;

/// The quotient of `a` by a positive `b`, rounded toward zero.
pub open spec fn quotient_toward_zero(a: int, b: int) -> int {
    if a >= 0 {
        a / b
    } else {
        -((-a) / b)
    }
}

/// A clock reading. The components are unbounded here, so that a reading
/// derived from any count can be written down and then judged.
pub struct TimeOfDay {
    pub hour: int,
    pub minute: int,
    pub second: int,
    pub microsecond: int,
}

/// The reading with the given components.
pub open spec fn reading(hour: int, minute: int, second: int, microsecond: int) -> TimeOfDay {
    TimeOfDay { hour, minute, second, microsecond }
}

impl TimeOfDay {
    /// Every component lies within its domain.
    pub open spec fn in_range(self) -> bool {
        &&& 0 <= self.hour <= 23
        &&& 0 <= self.minute <= 59
        &&& 0 <= self.second <= 59
        &&& 0 <= self.microsecond <= 999_999
    }

    /// The first component outside its domain, in the order hour, minute,
    /// second, microsecond; `None` where there is none.
    pub open spec fn first_out_of_range(self) -> Option<Component> {
        if !(0 <= self.hour <= 23) {
            Some(Component::Hour)
        } else if !(0 <= self.minute <= 59) {
            Some(Component::Minute)
        } else if !(0 <= self.second <= 59) {
            Some(Component::Second)
        } else if !(0 <= self.microsecond <= 999_999) {
            Some(Component::Microsecond)
        } else {
            None
        }
    }

    /// The microseconds that have passed since midnight at this reading.
    pub open spec fn micros(self) -> int {
        ((self.hour * 60 + self.minute) * 60 + self.second) * 1_000_000 + self.microsecond
    }

    /// The reading derived from a count of microseconds: whole hours first,
    /// then whole minutes of what is left, then whole seconds, each quotient
    /// rounded toward zero, and the remainder as microseconds. For a count
    /// that is no time of day the reading is out of range.
    pub open spec fn of_micros(raw: int) -> TimeOfDay {
        let hour: int = quotient_toward_zero(raw, 3_600_000_000);
        let past_hour: int = raw - hour * 3_600_000_000;
        let minute: int = quotient_toward_zero(past_hour, 60_000_000);
        let past_minute: int = past_hour - minute * 60_000_000;
        let second: int = quotient_toward_zero(past_minute, 1_000_000);
        TimeOfDay { hour, minute, second, microsecond: past_minute - second * 1_000_000 }
    }
}

/// A count of microseconds within one day gives a valid reading, and that
/// reading counts the same microseconds.
pub proof fn lemma_micros_of_reading_of_micros(raw: int)
    requires
        0 <= raw < 86_400_000_000,
    ensures
        TimeOfDay::of_micros(raw).in_range(),
        TimeOfDay::of_micros(raw).micros() == raw,
{
}

/// A valid reading counts microseconds within one day, and the reading
/// derived from that count is the same reading.
pub proof fn lemma_reading_of_micros_of_reading(t: TimeOfDay)
    requires
        t.in_range(),
    ensures
        0 <= t.micros() < 86_400_000_000,
        TimeOfDay::of_micros(t.micros()) == t,
{
}

/// Within one day the reading of a count is what plain division gives: the
/// whole hours, the whole minutes past the hour, the whole seconds past the
/// minute, and the microseconds past the second.
pub proof fn lemma_of_micros_within_day(raw: int)
    requires
        0 <= raw < 86_400_000_000,
    ensures
        TimeOfDay::of_micros(raw) == reading(
            raw / 3_600_000_000,
            (raw / 60_000_000) % 60,
            (raw / 1_000_000) % 60,
            raw % 1_000_000,
        ),
{
    let minutes: int = raw / 60_000_000;
    let seconds: int = raw / 1_000_000;
    assert(raw == (minutes / 60) * 3_600_000_000 + (minutes % 60) * 60_000_000 + raw % 60_000_000);
    assert(raw / 3_600_000_000 == minutes / 60);
    assert(raw == (seconds / 60) * 60_000_000 + (seconds % 60) * 1_000_000 + raw % 1_000_000);
    assert(minutes == seconds / 60);
}

/// A count is the count of some valid reading exactly when it lies within
/// one day.
pub proof fn lemma_in_range_iff_within_day(raw: int)
    ensures
        TimeOfDay::of_micros(raw).in_range() <==> 0 <= raw < 86_400_000_000,
{
}

/// Which component is reported for a count that is no time of day.
pub proof fn lemma_first_out_of_range_of_micros(raw: int)
    ensures
        TimeOfDay::of_micros(raw).first_out_of_range() == (if 0 <= raw < 86_400_000_000 {
            None
        } else if raw >= 86_400_000_000 || raw <= -3_600_000_000 {
            Some(Component::Hour)
        } else if raw <= -60_000_000 {
            Some(Component::Minute)
        } else if raw <= -1_000_000 {
            Some(Component::Second)
        } else {
            Some(Component::Microsecond)
        }),
{
}

} // verus!

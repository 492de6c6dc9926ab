//! `Time`: a clock reading whose components are known to be in range.

use vstd::prelude::*;
use crate::model::{reading, TimeOfDay};
use crate::range::{Component, RangeError};

verus! {

/// A time of day: hour, minute, second and microsecond, each within its
/// domain. A `Time` is only ever made by a function that has established
/// that, and is never changed afterwards.
#[derive(Clone, Copy, Debug, PartialEq, Eq, Hash, Structural)]
pub struct Time {
    hour: u8,
    minute: u8,
    second: u8,
    microsecond: u32,
}

impl View for Time {
    type V = TimeOfDay;

    closed spec fn view(&self) -> TimeOfDay {
        TimeOfDay {
            hour: self.hour as int,
            minute: self.minute as int,
            second: self.second as int,
            microsecond: self.microsecond as int,
        }
    }
}

impl Time {
    #[verifier::type_invariant]
    spec fn components_in_range(self) -> bool {
        self@.in_range()
    }

    /// A time from four components of any size. This is the one place where
    /// components are judged: every other way to a `Time` leads through it.
    ///
    /// Each component is held against its domain, in the order hour, minute,
    /// second, microsecond. Where all are in range the time is returned;
    /// otherwise the error names the first that is not.
    pub fn new(hour: i64, minute: i64, second: i64, microsecond: i64) -> (r: Result<Time, RangeError>)
        ensures
            r is Ok <==> reading(
                hour as int,
                minute as int,
                second as int,
                microsecond as int,
            ).in_range(),
            match r {
                Ok(t) => t@ == reading(
                    hour as int,
                    minute as int,
                    second as int,
                    microsecond as int,
                ),
                Err(e) => reading(
                    hour as int,
                    minute as int,
                    second as int,
                    microsecond as int,
                ).first_out_of_range() == Some(e.component),
            },
    {
        if hour < 0 || hour > 23 {
            return Err(RangeError { component: Component::Hour });
        }
        if minute < 0 || minute > 59 {
            return Err(RangeError { component: Component::Minute });
        }
        if second < 0 || second > 59 {
            return Err(RangeError { component: Component::Second });
        }
        if microsecond < 0 || microsecond > 999_999 {
            return Err(RangeError { component: Component::Microsecond });
        }
        Ok(
            Time {
                hour: hour as u8,
                minute: minute as u8,
                second: second as u8,
                microsecond: microsecond as u32,
            },
        )
    }

    /// A time from hour, minute, second and microsecond.
    ///
    /// Fails where a component is out of range, and names the first such
    /// component.
    pub fn from_hms_micro(hour: u8, minute: u8, second: u8, microsecond: u32) -> (r: Result<Time, RangeError>)
        ensures
            r is Ok <==> reading(
                hour as int,
                minute as int,
                second as int,
                microsecond as int,
            ).in_range(),
            match r {
                Ok(t) => t@ == reading(
                    hour as int,
                    minute as int,
                    second as int,
                    microsecond as int,
                ),
                Err(e) => reading(
                    hour as int,
                    minute as int,
                    second as int,
                    microsecond as int,
                ).first_out_of_range() == Some(e.component),
            },
    {
        Time::new(hour as i64, minute as i64, second as i64, microsecond as i64)
    }

    /// A time from hour, minute and second, on the full second.
    ///
    /// Fails where a component is out of range, and names the first such
    /// component.
    pub fn from_hms(hour: u8, minute: u8, second: u8) -> (r: Result<Time, RangeError>)
        ensures
            r is Ok <==> hour <= 23 && minute <= 59 && second <= 59,
            match r {
                Ok(t) => t@ == reading(hour as int, minute as int, second as int, 0),
                Err(e) => reading(hour as int, minute as int, second as int, 0).first_out_of_range()
                    == Some(e.component),
            },
    {
        Time::from_hms_micro(hour, minute, second, 0)
    }

    /// The hour of the day.
    pub fn hour(&self) -> (h: u8)
        ensures
            h == self@.hour,
            h <= 23,
    {
        proof {
            use_type_invariant(self);
        }
        self.hour
    }

    /// The minute of the hour.
    pub fn minute(&self) -> (m: u8)
        ensures
            m == self@.minute,
            m <= 59,
    {
        proof {
            use_type_invariant(self);
        }
        self.minute
    }

    /// The second of the minute.
    pub fn second(&self) -> (s: u8)
        ensures
            s == self@.second,
            s <= 59,
    {
        proof {
            use_type_invariant(self);
        }
        self.second
    }

    /// The microsecond of the second.
    pub fn microsecond(&self) -> (us: u32)
        ensures
            us == self@.microsecond,
            us <= 999_999,
    {
        proof {
            use_type_invariant(self);
        }
        self.microsecond
    }
}

/// Two times with the same reading are the same time.
pub proof fn lemma_reading_determines_time(a: Time, b: Time)
    requires
        a@ == b@,
    ensures
        a == b,
{
}

} // verus!

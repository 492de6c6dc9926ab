//! The microsecond count of a `Time`, and the `Time` of a microsecond count.

use vstd::prelude::*;
use crate::clock::Time;
use crate::model::{
    TimeOfDay,
    MINS_PER_HOUR,
    SEC_PER_MIN,
    USECS_PER_HOUR,
    USECS_PER_MINUTE,
    USECS_PER_SEC,
};
use crate::range::RangeError;

verus! {

impl Time {
    /// Decodes a count of microseconds since midnight.
    ///
    /// An absent value stays absent, whatever `datum` holds: that is no
    /// error. Otherwise the count is split into hours, minutes, seconds and
    /// microseconds, and the result is accepted exactly when `datum` lies in
    /// `0..86_400_000_000`; any other count is reported with the first
    /// component that it puts out of range.
    pub fn from_datum(datum: i64, is_null: bool) -> (r: Result<Option<Time>, RangeError>)
        ensures
            is_null ==> r == Ok::<Option<Time>, RangeError>(None),
            !is_null ==> match r {
                Ok(Some(t)) => t@ == TimeOfDay::of_micros(datum as int) && t@.in_range(),
                Ok(None) => false,
                Err(e) => TimeOfDay::of_micros(datum as int).first_out_of_range() == Some(
                    e.component,
                ),
            },
            r is Ok <==> is_null || 0 <= datum < 86_400_000_000,
            r matches Ok(Some(t)) ==> t@.micros() == datum,
    {
        if is_null {
            return Ok(None);
        }
        let hour: i64 = datum / USECS_PER_HOUR;
        let past_hour: i64 = datum - hour * USECS_PER_HOUR;
        let minute: i64 = past_hour / USECS_PER_MINUTE;
        let past_minute: i64 = past_hour - minute * USECS_PER_MINUTE;
        let second: i64 = past_minute / USECS_PER_SEC;
        let microsecond: i64 = past_minute - second * USECS_PER_SEC;
        match Time::new(hour, minute, second, microsecond) {
            Ok(t) => Ok(Some(t)),
            Err(e) => Err(e),
        }
    }

    /// Encodes the time as its count of microseconds since midnight, which
    /// lies in `0..86_400_000_000`. There is always a count to give.
    pub fn into_datum(self) -> (r: Option<i64>)
        ensures
            r == Some(self@.micros() as i64),
            0 <= self@.micros() < 86_400_000_000,
    {
        let hour: i64 = self.hour() as i64;
        let minute: i64 = self.minute() as i64;
        let second: i64 = self.second() as i64;
        let microsecond: i64 = self.microsecond() as i64;
        Some(((hour * MINS_PER_HOUR + minute) * SEC_PER_MIN + second) * USECS_PER_SEC + microsecond)
    }
}

} // verus!

//! Points in time, as messages carry them.
//!
//! A point in time is a calendar date and a time of day without a zone. The
//! library holds the six numbers; the `time` crate says which of them are a
//! date and a time, and the contracts here state what it says.

use crate::json::{
    element, integer_element, json_element, json_integer_element, json_number, numbered,
};
use serde_json::Value;
use time::{Date, Time};
use vstd::prelude::*;
use vstd::string::*;

verus! {

/// Whether a year has 366 days, by the Gregorian rule applied to every year.
pub open spec fn is_leap_year(year: int) -> bool {
    year % 4 == 0 && (year % 100 != 0 || year % 400 == 0)
}

/// Whether there is such a date: the year has at most four digits, and the
/// day of the year is counted from 1 to the number of days of that year.
pub open spec fn date_exists(year: i32, ordinal: u16) -> bool {
    &&& -9999 <= year <= 9999
    &&& 1 <= ordinal
    &&& ordinal <= 365 || (ordinal == 366 && is_leap_year(year as int))
}

/// Whether there is such a time of day: an hour below 24, a minute and a
/// second below 60, and less than a second of nanoseconds.
pub open spec fn time_exists(hour: u8, minute: u8, second: u8, nanosecond: u32) -> bool {
    hour < 24 && minute < 60 && second < 60 && nanosecond < 1_000_000_000
}

/// Calls `Date::from_ordinal_date` and says whether it gave a date. Trusted:
/// it gives one exactly for a year from -9999 to 9999 and a day from 1 to
/// 365, or to 366 in a leap year. The range of years is the one that `time`
/// has without its feature for large dates, which this crate does not ask
/// for.
#[verifier::external_body]
pub(crate) fn is_date(year: i32, ordinal: u16) -> (r: bool)
    ensures
        r == date_exists(year, ordinal),
{
    Date::from_ordinal_date(year, ordinal).is_ok()
}

/// Calls `Time::from_hms_nano` and says whether it gave a time. Trusted: it
/// gives one exactly where each number is within its unit.
#[verifier::external_body]
pub(crate) fn is_time(hour: u8, minute: u8, second: u8, nanosecond: u32) -> (r: bool)
    ensures
        r == time_exists(hour, minute, second, nanosecond),
{
    Time::from_hms_nano(hour, minute, second, nanosecond).is_ok()
}

/// A date and a time of day: the year, the day of the year counted from 1, and
/// the hour, minute, second and nanosecond.
#[derive(Clone, Copy, Debug, PartialEq, Eq, Structural)]
pub struct DateTime {
    pub year: i32,
    pub ordinal: u16,
    pub hour: u8,
    pub minute: u8,
    pub second: u8,
    pub nanosecond: u32,
}

impl DateTime {
    /// Whether the six numbers are a date and a time of day.
    pub open spec fn is_real(self) -> bool {
        date_exists(self.year, self.ordinal) && time_exists(
            self.hour,
            self.minute,
            self.second,
            self.nanosecond,
        )
    }

    /// The JSON text of a point in time: the six numbers as an array.
    pub open spec fn encoded(self) -> Seq<char> {
        "["@ + json_number(self.year as i64) + ","@ + json_number(self.ordinal as i64) + ","@
            + json_number(self.hour as i64) + ","@ + json_number(self.minute as i64) + ","@
            + json_number(self.second as i64) + ","@ + json_number(self.nanosecond as i64) + "]"@
    }

    /// The point in time that a JSON document stands for: the document is an
    /// array of six integers and no more, each in the range of its field,
    /// which are a date and a time of day.
    pub open spec fn decoded(doc: Value) -> Option<DateTime> {
        if json_element(doc, 6) is Some {
            None
        } else {
            Self::decoded_six(doc)
        }
    }

    /// The point in time that the first six elements of a JSON document stand
    /// for.
    pub open spec fn decoded_six(doc: Value) -> Option<DateTime> {
        match (
            json_integer_element(doc, 0),
            json_integer_element(doc, 1),
            json_integer_element(doc, 2),
            json_integer_element(doc, 3),
            json_integer_element(doc, 4),
            json_integer_element(doc, 5),
        ) {
            (Some(year), Some(ordinal), Some(hour), Some(minute), Some(second), Some(nanosecond)) => {
                if i32::MIN <= year <= i32::MAX && 0 <= ordinal <= u16::MAX && 0 <= hour <= u8::MAX
                    && 0 <= minute <= u8::MAX && 0 <= second <= u8::MAX && 0 <= nanosecond
                    <= u32::MAX {
                    let moment = DateTime {
                        year: year as i32,
                        ordinal: ordinal as u16,
                        hour: hour as u8,
                        minute: minute as u8,
                        second: second as u8,
                        nanosecond: nanosecond as u32,
                    };
                    if moment.is_real() {
                        Some(moment)
                    } else {
                        None
                    }
                } else {
                    None
                }
            },
            _ => None,
        }
    }

    /// The point in time of six numbers, where they are a date and a time of
    /// day.
    pub fn new(year: i32, ordinal: u16, hour: u8, minute: u8, second: u8, nanosecond: u32) -> (r:
        Option<DateTime>)
        ensures
            r == (if (DateTime { year, ordinal, hour, minute, second, nanosecond }).is_real() {
                Some(DateTime { year, ordinal, hour, minute, second, nanosecond })
            } else {
                None
            }),
    {
        if is_date(year, ordinal) && is_time(hour, minute, second, nanosecond) {
            Some(DateTime { year, ordinal, hour, minute, second, nanosecond })
        } else {
            None
        }
    }

    /// Writes the point in time as JSON text.
    pub fn encode(&self) -> (text: String)
        ensures
            text@ == self.encoded(),
    {
        let mut text = String::from_str("[");
        text.append(numbered(self.year as i64).as_str());
        text.append(",");
        text.append(numbered(self.ordinal as i64).as_str());
        text.append(",");
        text.append(numbered(self.hour as i64).as_str());
        text.append(",");
        text.append(numbered(self.minute as i64).as_str());
        text.append(",");
        text.append(numbered(self.second as i64).as_str());
        text.append(",");
        text.append(numbered(self.nanosecond as i64).as_str());
        text.append("]");
        text
    }

    /// Reads a point in time from a JSON document.
    pub fn decode(doc: &Value) -> (r: Option<DateTime>)
        ensures
            r == DateTime::decoded(*doc),
    {
        if element(doc, 6).is_some() {
            return None;
        }
        let year = integer_element(doc, 0);
        let ordinal = integer_element(doc, 1);
        let hour = integer_element(doc, 2);
        let minute = integer_element(doc, 3);
        let second = integer_element(doc, 4);
        let nanosecond = integer_element(doc, 5);
        match (year, ordinal, hour, minute, second, nanosecond) {
            (Some(year), Some(ordinal), Some(hour), Some(minute), Some(second), Some(nanosecond)) => {
                if -0x8000_0000 <= year && year <= 0x7fff_ffff && 0 <= ordinal && ordinal <= 0xffff
                    && 0 <= hour && hour <= 0xff && 0 <= minute && minute <= 0xff && 0 <= second
                    && second <= 0xff && 0 <= nanosecond && nanosecond <= 0xffff_ffff {
                    DateTime::new(
                        year as i32,
                        ordinal as u16,
                        hour as u8,
                        minute as u8,
                        second as u8,
                        nanosecond as u32,
                    )
                } else {
                    None
                }
            },
            _ => None,
        }
    }
}

} // verus!

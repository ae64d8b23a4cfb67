//! The naive date-time: a date of the proleptic Gregorian calendar and a
//! time of day, with no zone and no offset.

use vstd::prelude::*;

verus! {

/// The first year that a date can have.
pub const MIN_YEAR: i32 = -9999;

/// The last year that a date can have.
pub const MAX_YEAR: i32 = 9999;

/// The largest count of nanoseconds below one second.
pub const MAX_NANOSECOND: u32 = 999_999_999;

/// Whether a year of the proleptic Gregorian calendar has a 29 February.
pub open spec fn is_leap_year(year: int) -> bool {
    year % 4 == 0 && (year % 100 != 0 || year % 400 == 0)
}

/// The number of days of a month, 0 for a month that does not exist.
pub open spec fn days_in_month(year: int, month: int) -> int {
    if month == 2 {
        if is_leap_year(year) {
            29
        } else {
            28
        }
    } else if month == 4 || month == 6 || month == 9 || month == 11 {
        30
    } else if 1 <= month <= 12 {
        31
    } else {
        0
    }
}

/// Whether the seven numbers are a date that exists and a time of day that a
/// clock can show. Second 60 is a leap second and counts as one.
pub open spec fn is_date_time(
    year: int,
    month: int,
    day: int,
    hour: int,
    minute: int,
    second: int,
    nanosecond: int,
) -> bool {
    &&& MIN_YEAR <= year <= MAX_YEAR
    &&& 1 <= month <= 12
    &&& 1 <= day <= days_in_month(year, month)
    &&& 0 <= hour <= 23
    &&& 0 <= minute <= 59
    &&& 0 <= second <= 60
    &&& 0 <= nanosecond <= MAX_NANOSECOND
}

/// The fields of a naive date-time, as contracts see them.
pub struct DateTimeFields {
    /// The year, with a year 0 before year 1.
    pub year: int,
    /// The month, from 1.
    pub month: int,
    /// The day of the month, from 1.
    pub day: int,
    /// The hour, from 0.
    pub hour: int,
    /// The minute.
    pub minute: int,
    /// The second; 60 is a leap second.
    pub second: int,
    /// The nanoseconds below the second.
    pub nanosecond: int,
}

impl DateTimeFields {
    /// Whether the fields are a date that exists and a time of day.
    pub open spec fn is_valid(self) -> bool {
        is_date_time(
            self.year,
            self.month,
            self.day,
            self.hour,
            self.minute,
            self.second,
            self.nanosecond,
        )
    }

    /// Whether the second is a leap second.
    pub open spec fn is_leap_second(self) -> bool {
        self.second == 60
    }

    /// The same date and time with a leap second replaced by the last
    /// nanosecond of second 59 of its minute.
    pub open spec fn clamped(self) -> DateTimeFields {
        if self.is_leap_second() {
            DateTimeFields { second: 59, nanosecond: MAX_NANOSECOND as int, ..self }
        } else {
            self
        }
    }
}

/// A date that cannot exist or a time that no clock shows.
#[derive(Debug, Clone, Copy, PartialEq, Eq, Structural)]
pub struct RangeError;

/// A naive date-time: a date and a time of day with no zone attached.
///
/// Every value is a date that exists, between the years -9999 and 9999, and
/// a time of day; it never changes after it was made.
#[derive(Debug, Clone, Copy, PartialEq, Eq, Hash, Structural)]
pub struct DateValue {
    pub(crate) year: i32,
    pub(crate) month: u8,
    pub(crate) day: u8,
    pub(crate) hour: u8,
    pub(crate) minute: u8,
    pub(crate) second: u8,
    pub(crate) nanosecond: u32,
}

impl View for DateValue {
    type V = DateTimeFields;

    closed spec fn view(&self) -> DateTimeFields {
        DateTimeFields {
            year: self.year as int,
            month: self.month as int,
            day: self.day as int,
            hour: self.hour as int,
            minute: self.minute as int,
            second: self.second as int,
            nanosecond: self.nanosecond as int,
        }
    }
}

/// Whether a year has a 29 February.
fn leap_year(year: i32) -> (leap: bool)
    ensures
        leap == is_leap_year(year as int),
{
    year % 4 == 0 && (year % 100 != 0 || year % 400 == 0)
}

/// The number of days of a month, 0 for a month that does not exist.
fn month_length(year: i32, month: u8) -> (days: u8)
    ensures
        days == days_in_month(year as int, month as int),
{
    if month == 2 {
        if leap_year(year) {
            29
        } else {
            28
        }
    } else if month == 4 || month == 6 || month == 9 || month == 11 {
        30
    } else if 1 <= month && month <= 12 {
        31
    } else {
        0
    }
}

impl DateValue {
    #[verifier::type_invariant]
    spec fn valid(self) -> bool {
        self@.is_valid()
    }

    /// Builds a naive date-time from its fields, or refuses them if they are
    /// no date that exists or no time of day. A leap second is accepted and
    /// kept.
    pub fn try_new(
        year: i32,
        month: u8,
        day: u8,
        hour: u8,
        minute: u8,
        second: u8,
        nanosecond: u32,
    ) -> (outcome: Result<DateValue, RangeError>)
        ensures
            outcome is Ok <==> is_date_time(
                year as int,
                month as int,
                day as int,
                hour as int,
                minute as int,
                second as int,
                nanosecond as int,
            ),
            outcome matches Ok(value) ==> value@ == (DateTimeFields {
                year: year as int,
                month: month as int,
                day: day as int,
                hour: hour as int,
                minute: minute as int,
                second: second as int,
                nanosecond: nanosecond as int,
            }),
    {
        if year < MIN_YEAR || year > MAX_YEAR || month < 1 || month > 12 {
            return Err(RangeError);
        }
        if day < 1 || day > month_length(year, month) {
            return Err(RangeError);
        }
        if hour > 23 || minute > 59 || second > 60 || nanosecond > MAX_NANOSECOND {
            return Err(RangeError);
        }
        Ok(DateValue { year, month, day, hour, minute, second, nanosecond })
    }

    /// The year, with a year 0 before year 1.
    pub fn year(&self) -> (year: i32)
        ensures
            year == self@.year,
            MIN_YEAR <= year <= MAX_YEAR,
    {
        proof {
            use_type_invariant(self);
        }
        self.year
    }

    /// The month, from 1 to 12.
    pub fn month(&self) -> (month: u8)
        ensures
            month == self@.month,
            1 <= month <= 12,
    {
        proof {
            use_type_invariant(self);
        }
        self.month
    }

    /// The day of the month, from 1.
    pub fn day(&self) -> (day: u8)
        ensures
            day == self@.day,
            1 <= day <= days_in_month(self@.year, self@.month),
    {
        proof {
            use_type_invariant(self);
        }
        self.day
    }

    /// The hour, from 0 to 23.
    pub fn hour(&self) -> (hour: u8)
        ensures
            hour == self@.hour,
            hour <= 23,
    {
        proof {
            use_type_invariant(self);
        }
        self.hour
    }

    /// The minute, from 0 to 59.
    pub fn minute(&self) -> (minute: u8)
        ensures
            minute == self@.minute,
            minute <= 59,
    {
        proof {
            use_type_invariant(self);
        }
        self.minute
    }

    /// The second, from 0 to 60; 60 is a leap second.
    pub fn second(&self) -> (second: u8)
        ensures
            second == self@.second,
            second <= 60,
    {
        proof {
            use_type_invariant(self);
        }
        self.second
    }

    /// The nanoseconds below the second.
    pub fn nanosecond(&self) -> (nanosecond: u32)
        ensures
            nanosecond == self@.nanosecond,
            nanosecond <= MAX_NANOSECOND,
    {
        proof {
            use_type_invariant(self);
        }
        self.nanosecond
    }

    /// Replaces a leap second by the last nanosecond of second 59 of the
    /// same minute, and leaves every other value as it is.
    ///
    /// The result never holds a leap second, and its date, hour and minute
    /// are those of the value.
    pub fn clamp_leap_second(&self) -> (clamped: DateValue)
        ensures
            clamped@ == self@.clamped(),
            !clamped@.is_leap_second(),
    {
        proof {
            use_type_invariant(self);
        }
        if self.second == 60 {
            DateValue {
                year: self.year,
                month: self.month,
                day: self.day,
                hour: self.hour,
                minute: self.minute,
                second: 59,
                nanosecond: MAX_NANOSECOND,
            }
        } else {
            *self
        }
    }
}

} // verus!

//! The field set: which components a formatter shows, and how precisely.
//!
//! A [`FieldSet`] holds the four settings of ICU4X's field set builder that
//! the two style axes can reach.

use vstd::prelude::*;

verus! {

/// The date components shown.
#[derive(Debug, Clone, Copy, PartialEq, Eq, Hash, Structural)]
pub enum DateFields {
    /// Year, month and day of the month.
    YMD,
    /// Year, month, day of the month and weekday.
    YMDE,
}

/// The length tier of the formatted string.
#[derive(Debug, Clone, Copy, PartialEq, Eq, Hash, Structural)]
pub enum Length {
    /// Wide month names.
    Long,
    /// Abbreviated month names.
    Medium,
    /// Numeric months.
    Short,
}

/// How far down the time of day is shown.
#[derive(Debug, Clone, Copy, PartialEq, Eq, Hash, Structural)]
pub enum TimePrecision {
    /// Hours and minutes.
    Minute,
    /// Hours, minutes and seconds.
    Second,
}

/// How the time zone is shown.
#[derive(Debug, Clone, Copy, PartialEq, Eq, Hash, Structural)]
pub enum ZoneStyle {
    /// The long specific non-location name, as in "Pacific Daylight Time".
    SpecificLong,
    /// The short specific non-location name, as in "PDT".
    SpecificShort,
}

/// What a formatter is asked to show. A field left `None` is not shown; a
/// missing length leaves the choice to the formatter.
#[derive(Debug, Clone, Copy, PartialEq, Eq, Hash, Structural)]
pub struct FieldSet {
    /// The length tier.
    pub length: Option<Length>,
    /// The date components.
    pub date_fields: Option<DateFields>,
    /// The precision of the time of day.
    pub time_precision: Option<TimePrecision>,
    /// The style of the time zone.
    pub zone_style: Option<ZoneStyle>,
}

impl FieldSet {
    /// Whether a time zone is shown, so that the value to format needs one.
    pub open spec fn needs_zone(self) -> bool {
        self.zone_style is Some
    }

    /// Whether the field set shows a date or a time of day.
    pub open spec fn shows_date_or_time(self) -> bool {
        self.date_fields is Some || self.time_precision is Some
    }

    /// Whether the field set says what to show and sets no option that
    /// nothing shown can honour: a length means nothing to a zone alone.
    pub open spec fn is_buildable(self) -> bool {
        &&& self.date_fields is Some || self.time_precision is Some || self.zone_style is Some
        &&& self.shows_date_or_time() || self.length is None
    }

    /// Whether a time zone is shown.
    pub fn has_zone(&self) -> (b: bool)
        ensures
            b == self.needs_zone(),
    {
        self.zone_style.is_some()
    }
}

} // verus!

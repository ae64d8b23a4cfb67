//! The two style axes, date length and time length, and the bag that holds
//! at most one of each.

use vstd::prelude::*;

use crate::fieldset::{DateFields, FieldSet, Length, TimePrecision, ZoneStyle};

verus! {

/// How verbosely the date part is shown.
#[derive(Debug, Clone, Copy, PartialEq, Eq, Hash, Structural)]
#[non_exhaustive]
pub enum Date {
    /// Full length, usually with the weekday name.
    Full,
    /// Long length, with a wide month name.
    Long,
    /// Medium length.
    Medium,
    /// Short length, usually with a numeric month.
    Short,
}

/// How verbosely the time part is shown.
#[derive(Debug, Clone, Copy, PartialEq, Eq, Hash, Structural)]
#[non_exhaustive]
pub enum Time {
    /// With seconds and a spelled-out time zone name.
    Full,
    /// With seconds and a short time zone code.
    Long,
    /// With seconds, without a zone.
    Medium,
    /// Without seconds, without a zone.
    Short,
}

/// Up to one date length and up to one time length.
///
/// The bag with neither is the empty bag: it stands for "no style chosen",
/// and differs from every bag that names a style.
#[derive(Debug, Clone, Copy, PartialEq, Eq, Hash, Structural)]
pub struct Bag {
    /// The date part, if one is shown.
    pub date: Option<Date>,
    /// The time part, if one is shown.
    pub time: Option<Time>,
}

impl Bag {
    /// The bag with no date length and no time length.
    pub open spec fn spec_empty() -> Bag {
        Bag { date: None, time: None }
    }

    /// Constructs a `Bag` with both fields set to `None`.
    #[verifier::when_used_as_spec(spec_empty)]
    pub fn empty() -> (bag: Bag)
        ensures
            bag == Bag::spec_empty(),
    {
        Bag { date: None, time: None }
    }

    /// The bag that decides what is shown: the empty bag stands for a short
    /// date and no time, every other bag for itself.
    pub open spec fn effective(self) -> Bag {
        if self == Bag::spec_empty() {
            Bag { date: Some(Date::Short), time: None }
        } else {
            self
        }
    }

    /// The field set that this bag asks for.
    ///
    /// The date length picks the date fields and the length tier, the time
    /// length picks the precision and the zone style; the empty bag asks for
    /// what its effective bag asks for.
    pub open spec fn fieldset(self) -> FieldSet {
        let bag = self.effective();
        FieldSet {
            length: match bag.date {
                Some(date) => Some(date.length()),
                None => None,
            },
            date_fields: match bag.date {
                Some(date) => Some(date.fields()),
                None => None,
            },
            time_precision: match bag.time {
                Some(time) => Some(time.precision()),
                None => None,
            },
            zone_style: match bag.time {
                Some(time) => time.zone_style(),
                None => None,
            },
        }
    }

    /// Compiles the bag to the field set that the formatter is built from.
    ///
    /// The result is always one that can be built: it shows a date or a time,
    /// and it shows a zone only beside a time.
    pub fn to_fieldset_builder(self) -> (builder: FieldSet)
        ensures
            builder == self.fieldset(),
            builder.is_buildable(),
            builder.shows_date_or_time(),
            builder.needs_zone() ==> builder.time_precision is Some,
    {
        let (date, time) = if self == Self::empty() {
            (Some(Date::Short), None)
        } else {
            (self.date, self.time)
        };
        let mut builder = FieldSet {
            length: None,
            date_fields: None,
            time_precision: None,
            zone_style: None,
        };
        if let Some(date) = date {
            builder.date_fields = Some(
                if date == Date::Full {
                    DateFields::YMDE
                } else {
                    DateFields::YMD
                },
            );
            builder.length = Some(
                match date {
                    Date::Full | Date::Long => Length::Long,
                    Date::Medium => Length::Medium,
                    Date::Short => Length::Short,
                },
            );
        }
        if let Some(time) = time {
            builder.time_precision = Some(
                if time == Time::Short {
                    TimePrecision::Minute
                } else {
                    TimePrecision::Second
                },
            );
            if time == Time::Full {
                builder.zone_style = Some(ZoneStyle::SpecificLong);
            } else if time == Time::Long {
                builder.zone_style = Some(ZoneStyle::SpecificShort)
            }
        }
        builder
    }
}

impl Date {
    /// The date fields of this length: only the full length shows the
    /// weekday.
    pub open spec fn fields(self) -> DateFields {
        if self == Date::Full {
            DateFields::YMDE
        } else {
            DateFields::YMD
        }
    }

    /// The length tier of this date length: full and long share the long
    /// tier.
    pub open spec fn length(self) -> Length {
        match self {
            Date::Full | Date::Long => Length::Long,
            Date::Medium => Length::Medium,
            Date::Short => Length::Short,
        }
    }
}

impl Time {
    /// The precision of this time length: only the short length drops the
    /// seconds.
    pub open spec fn precision(self) -> TimePrecision {
        if self == Time::Short {
            TimePrecision::Minute
        } else {
            TimePrecision::Second
        }
    }

    /// The zone style of this time length: the full length spells the zone
    /// out, the long length abbreviates it, the others show none.
    pub open spec fn zone_style(self) -> Option<ZoneStyle> {
        match self {
            Time::Full => Some(ZoneStyle::SpecificLong),
            Time::Long => Some(ZoneStyle::SpecificShort),
            Time::Medium | Time::Short => None,
        }
    }
}

} // verus!

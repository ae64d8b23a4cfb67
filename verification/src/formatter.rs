//! Formatters: built by ICU4X for a language and a field set, and used to
//! render a date-time.
//!
//! A formatter whose field set shows no zone takes a naive date-time; one
//! whose field set shows a zone takes a zoned date-time. The two are kept
//! apart by type, so that each is only ever given the input it can take.

use icu_calendar::Date;
use icu_datetime::fieldsets::builder::{
    BuilderError, DateFields as IcuDateFields, FieldSetBuilder, ZoneStyle as IcuZoneStyle,
};
use icu_datetime::fieldsets::enums::{CompositeDateTimeFieldSet, CompositeFieldSet};
use icu_datetime::options::{Length as IcuLength, TimePrecision as IcuPrecision};
use icu_datetime::{DateTimeFormatter, DateTimeFormatterLoadError};
use icu_locale_core::{LanguageIdentifier, ParseError};
use icu_time::zone::models::AtTime;
use icu_time::{DateTime, Time, TimeZoneInfo, ZonedDateTime};
use jiff::tz::TimeZone;
use jiff::Zoned;
use jiff_icu::ConvertFrom;
use vstd::prelude::*;

use crate::datetime::{DateTimeFields, DateValue};
use crate::fieldset::{DateFields, FieldSet, Length, TimePrecision, ZoneStyle};
use crate::zone::{attach_zone, attached};

verus! {

/// ICU4X's `LanguageIdentifier`: a parsed language tag.
#[verifier::external_type_specification]
#[verifier::external_body]
pub struct ExLanguageIdentifier(LanguageIdentifier);

/// ICU4X's `ParseError`: why a language tag was refused.
#[verifier::external_type_specification]
#[verifier::external_body]
pub struct ExParseError(ParseError);

/// ICU4X's `CompositeFieldSet`: any field set, with or without a zone.
#[verifier::external_type_specification]
#[verifier::external_body]
pub struct ExCompositeFieldSet(CompositeFieldSet);

/// ICU4X's `CompositeDateTimeFieldSet`: a field set without a zone.
#[verifier::external_type_specification]
#[verifier::external_body]
pub struct ExCompositeDateTimeFieldSet(CompositeDateTimeFieldSet);

/// ICU4X's `BuilderError`: why a field set could not be built.
#[verifier::external_type_specification]
#[verifier::external_body]
pub struct ExBuilderError(BuilderError);

/// ICU4X's `DateTimeFormatterLoadError`: why a formatter could not be
/// loaded.
#[verifier::external_type_specification]
#[verifier::external_body]
pub struct ExLoadError(DateTimeFormatterLoadError);

/// ICU4X's `DateTimeFormatter` over a field set without a zone.
///
/// The formatter type has a parameter that is bound by a trait of ICU4X,
/// which keeps Verus from declaring it; so it is held here, out of Verus's
/// sight.
#[verifier::external_body]
pub struct NaiveFormatter {
    inner: DateTimeFormatter<CompositeDateTimeFieldSet>,
}

/// ICU4X's `DateTimeFormatter` over a field set that may show a zone, held
/// as the one without a zone is.
#[verifier::external_body]
pub struct ZonedFormatter {
    inner: DateTimeFormatter<CompositeFieldSet>,
}

/// What `LanguageIdentifier::try_from_str` returns for a tag.
pub uninterp spec fn parsed_language(tag: Seq<char>) -> Result<LanguageIdentifier, ParseError>;

/// What `FieldSetBuilder::build_composite` returns for the builder that
/// holds the four settings of a field set, and no other.
pub uninterp spec fn composite_field_set(fields: FieldSet) -> Result<CompositeFieldSet, BuilderError>;

/// What `CompositeDateTimeFieldSet::try_from_composite_field_set` returns.
pub uninterp spec fn without_zone(set: CompositeFieldSet) -> Option<CompositeDateTimeFieldSet>;

/// What `DateTimeFormatter::try_new` returns, from compiled data, for a
/// language and a field set without a zone.
pub uninterp spec fn loaded_naive(
    language: LanguageIdentifier,
    set: CompositeDateTimeFieldSet,
) -> Result<NaiveFormatter, DateTimeFormatterLoadError>;

/// What `DateTimeFormatter::try_new` returns, from compiled data, for a
/// language and any field set.
pub uninterp spec fn loaded_zoned(language: LanguageIdentifier, set: CompositeFieldSet) -> Result<
    ZonedFormatter,
    DateTimeFormatterLoadError,
>;

/// The text that `DateTimeFormatter::format` writes for a naive date-time
/// of the Gregorian calendar.
pub uninterp spec fn naive_rendering(formatter: NaiveFormatter, value: DateTimeFields) -> Seq<char>;

/// The text that `DateTimeFormatter::format` writes for a zoned date-time.
pub uninterp spec fn zoned_rendering(formatter: ZonedFormatter, value: Zoned) -> Seq<char>;

/// `LanguageIdentifier::try_from_str`: parses a language tag.
#[verifier::external_body]
pub(crate) fn parse_language(tag: &str) -> (outcome: Result<LanguageIdentifier, ParseError>)
    ensures
        outcome == parsed_language(tag@),
{
    LanguageIdentifier::try_from_str(tag)
}

/// `FieldSetBuilder::build_composite`, on a new builder that was given the
/// four settings of the field set.
///
/// It succeeds exactly where the field set shows something and sets no
/// length for a zone alone. What it builds holds a zone exactly where the
/// field set has a zone style.
#[verifier::external_body]
pub(crate) fn build_field_set(fields: &FieldSet) -> (outcome: Result<CompositeFieldSet, BuilderError>)
    ensures
        outcome == composite_field_set(*fields),
        outcome is Ok <==> fields.is_buildable(),
        outcome matches Ok(set) ==> (without_zone(set) is None <==> fields.needs_zone()),
{
    let mut builder = FieldSetBuilder::new();
    builder.length = fields.length.map(|length| match length {
        Length::Long => IcuLength::Long, Length::Medium => IcuLength::Medium, Length::Short => IcuLength::Short,
    });
    builder.date_fields = fields.date_fields.map(|date| match date {
        DateFields::YMD => IcuDateFields::YMD, DateFields::YMDE => IcuDateFields::YMDE,
    });
    builder.time_precision = fields.time_precision.map(|precision| match precision {
        TimePrecision::Minute => IcuPrecision::Minute, TimePrecision::Second => IcuPrecision::Second,
    });
    builder.zone_style = fields.zone_style.map(|zone| match zone {
        ZoneStyle::SpecificLong => IcuZoneStyle::SpecificLong, ZoneStyle::SpecificShort => IcuZoneStyle::SpecificShort,
    });
    builder.build_composite()
}

/// `CompositeDateTimeFieldSet::try_from_composite_field_set`: the same
/// field set as one without a zone, where it holds none.
#[verifier::external_body]
pub(crate) fn strip_zone(set: CompositeFieldSet) -> (stripped: Option<CompositeDateTimeFieldSet>)
    ensures
        stripped == without_zone(set),
{
    CompositeDateTimeFieldSet::try_from_composite_field_set(set)
}

/// `DateTimeFormatter::try_new` for a field set without a zone: loads, from
/// the data compiled into ICU4X, what the language needs to show the fields.
#[verifier::external_body]
pub(crate) fn load_naive(language: LanguageIdentifier, set: CompositeDateTimeFieldSet) -> (outcome:
    Result<NaiveFormatter, DateTimeFormatterLoadError>)
    ensures
        outcome == loaded_naive(language, set),
{
    DateTimeFormatter::try_new(language.into(), set).map(|inner| NaiveFormatter { inner })
}

/// `DateTimeFormatter::try_new` for any field set: loads, from the data
/// compiled into ICU4X, what the language needs to show the fields.
#[verifier::external_body]
pub(crate) fn load_zoned(language: LanguageIdentifier, set: CompositeFieldSet) -> (outcome: Result<
    ZonedFormatter,
    DateTimeFormatterLoadError,
>)
    ensures
        outcome == loaded_zoned(language, set),
{
    DateTimeFormatter::try_new(language.into(), set).map(|inner| ZonedFormatter { inner })
}

/// `DateTimeFormatter::format`, written to a string, for a naive date-time.
/// Every `DateValue` is a date of the Gregorian calendar and a time of day
/// that ICU4X accepts.
#[verifier::external_body]
pub(crate) fn format_naive(formatter: &NaiveFormatter, value: &DateValue) -> (text: String)
    ensures
        text@ == naive_rendering(*formatter, value@),
{
    let date = Date::try_new_gregorian(value.year, value.month, value.day).unwrap();
    let time = Time::try_new(value.hour, value.minute, value.second, value.nanosecond).unwrap();
    formatter.inner.format(&DateTime { date, time }).to_string()
}

/// `DateTimeFormatter::format`, written to a string, for a zoned date-time.
#[verifier::external_body]
pub(crate) fn format_zoned(formatter: &ZonedFormatter, value: &Zoned) -> (text: String)
    ensures
        text@ == zoned_rendering(*formatter, *value),
{
    let zoned = ZonedDateTime::<_, TimeZoneInfo<AtTime>>::convert_from(value);
    formatter.inner.format(&zoned).to_string()
}

/// Why no formatter could be made.
#[derive(Debug, Clone, Copy, PartialEq, Eq, Structural)]
pub enum ConstructionError {
    /// The language tag is malformed.
    Language,
    /// The field set cannot be built. No bag of styles compiles to such a
    /// field set.
    FieldSet,
    /// The data for the language cannot show the field set.
    Data,
}

/// A formatter for one language and one field set.
pub enum Formatter {
    /// For a field set without a zone: formats naive date-times.
    Naive(NaiveFormatter),
    /// For a field set with a zone: formats zoned date-times.
    Zoned(ZonedFormatter),
}

/// What becomes of the formatter that ICU4X loaded, or of its error.
pub fn naive_outcome(outcome: Result<NaiveFormatter, DateTimeFormatterLoadError>) -> (made: Result<
    Formatter,
    ConstructionError,
>)
    ensures
        made == (match outcome {
            Ok(formatter) => Ok::<Formatter, ConstructionError>(Formatter::Naive(formatter)),
            Err(_) => Err(ConstructionError::Data),
        }),
{
    match outcome {
        Ok(formatter) => Ok(Formatter::Naive(formatter)),
        Err(_) => Err(ConstructionError::Data),
    }
}

/// What becomes of the formatter that ICU4X loaded, or of its error.
pub fn zoned_outcome(outcome: Result<ZonedFormatter, DateTimeFormatterLoadError>) -> (made: Result<
    Formatter,
    ConstructionError,
>)
    ensures
        made == (match outcome {
            Ok(formatter) => Ok::<Formatter, ConstructionError>(Formatter::Zoned(formatter)),
            Err(_) => Err(ConstructionError::Data),
        }),
{
    match outcome {
        Ok(formatter) => Ok(Formatter::Zoned(formatter)),
        Err(_) => Err(ConstructionError::Data),
    }
}

/// The formatter for a language tag and a field set, or why there is none.
///
/// The tag is parsed first, the field set is built next, and the formatter
/// is loaded last, without a zone where the field set has none.
pub open spec fn formatter_for(tag: Seq<char>, fields: FieldSet) -> Result<Formatter, ConstructionError> {
    match parsed_language(tag) {
        Err(_) => Err(ConstructionError::Language),
        Ok(language) => match composite_field_set(fields) {
            Err(_) => Err(ConstructionError::FieldSet),
            Ok(set) => match without_zone(set) {
                Some(stripped) => match loaded_naive(language, stripped) {
                    Ok(formatter) => Ok(Formatter::Naive(formatter)),
                    Err(_) => Err(ConstructionError::Data),
                },
                None => match loaded_zoned(language, set) {
                    Ok(formatter) => Ok(Formatter::Zoned(formatter)),
                    Err(_) => Err(ConstructionError::Data),
                },
            },
        },
    }
}

/// Makes the formatter for a language tag and a field set.
///
/// Fails with `Language` exactly on a tag that does not parse, else with
/// `FieldSet` exactly on a field set that cannot be built, else with `Data`
/// where ICU4X cannot load the formatter. A formatter that was made takes
/// zoned date-times exactly where the field set shows a zone.
pub fn build_formatter(tag: &str, fields: &FieldSet) -> (made: Result<Formatter, ConstructionError>)
    ensures
        made == formatter_for(tag@, *fields),
        made == Err::<Formatter, ConstructionError>(ConstructionError::Language) <==> parsed_language(
            tag@,
        ) is Err,
        made == Err::<Formatter, ConstructionError>(ConstructionError::FieldSet) <==> parsed_language(
            tag@,
        ) is Ok && !fields.is_buildable(),
        made matches Ok(formatter) ==> (formatter is Zoned <==> fields.needs_zone()),
{
    let language = match parse_language(tag) {
        Ok(language) => language,
        Err(_) => {
            return Err(ConstructionError::Language);
        },
    };
    let set = match build_field_set(fields) {
        Ok(set) => set,
        Err(_) => {
            return Err(ConstructionError::FieldSet);
        },
    };
    match strip_zone(set) {
        Some(stripped) => naive_outcome(load_naive(language, stripped)),
        None => zoned_outcome(load_zoned(language, set)),
    }
}

/// The text that a formatter for zoned date-times shows for a naive
/// date-time in a time zone: the rendering of the value with the zone
/// attached, or nothing where the zone cannot be attached.
pub open spec fn rendering_in_zone(formatter: ZonedFormatter, zone: TimeZone, value: DateTimeFields) -> Seq<
    char,
> {
    match attached(zone, value) {
        Ok(zoned) => zoned_rendering(formatter, zoned),
        Err(_) => Seq::empty(),
    }
}

/// Renders a naive date-time with a formatter that shows a zone, after
/// attaching the time zone to it. The text is empty where the zone cannot
/// be attached.
pub fn render_in_zone(formatter: &ZonedFormatter, zone: &TimeZone, value: &DateValue) -> (text: String)
    ensures
        text@ == rendering_in_zone(*formatter, *zone, value@),
{
    match attach_zone(zone, value) {
        Ok(zoned) => format_zoned(formatter, &zoned),
        Err(_) => String::new(),
    }
}

} // verus!

//! The value that a template sees: a naive date-time with the options that
//! say how to show it.

use jiff::tz::TimeZone;
use vstd::prelude::*;
use vstd::std_specs::convert::FromSpecImpl;

use crate::cache::{
    all_bound, asked, distinct_keys, found_at, rendering_with, CachedView, FormatterCache,
};
use crate::datetime::{DateTimeFields, DateValue};
use crate::fieldset::{DateFields, FieldSet, Length};
use crate::formatter::{
    formatter_for, naive_rendering, rendering_in_zone, ConstructionError, Formatter,
    ZonedFormatter,
};
use crate::length::{Bag, Date};
use crate::options::FluentDateTimeOptions;
use crate::zone::{attached, SystemZone};

verus! {

/// A naive date-time with attached formatting options.
///
/// Made from a [`DateValue`] with `From`, with no style set; the options can
/// be changed before the value is rendered.
#[derive(Debug, Clone, Copy, PartialEq, Eq, Structural)]
pub struct FluentDateTime {
    value: DateValue,
    /// Options for rendering.
    pub options: FluentDateTimeOptions,
}

impl From<DateValue> for FluentDateTime {
    fn from(value: DateValue) -> (made: Self) {
        Self { value, options: FluentDateTimeOptions::default() }
    }
}

impl FromSpecImpl<DateValue> for FluentDateTime {
    open spec fn obeys_from_spec() -> bool {
        true
    }

    open spec fn from_spec(value: DateValue) -> Self {
        Self::with(value, FluentDateTimeOptions::from_bag(Bag::spec_empty()))
    }
}

/// The text that a value shows in a language: what the formatter of the
/// language and the styles writes for it, or nothing where there is no such
/// formatter. `zone` is the time zone of the system; it matters only where
/// the styles show a zone.
pub open spec fn text_for(tag: Seq<char>, options: Bag, zone: TimeZone, value: DateTimeFields) -> Seq<
    char,
> {
    match formatter_for(tag, options.fieldset()) {
        Ok(formatter) => rendering_with(formatter, zone, value),
        Err(_) => Seq::empty(),
    }
}

/// With no style set, a value is shown as a short date and nothing else:
/// the field set has the short length, year, month and day, and neither a
/// time nor a zone, and the text is the one that the short date style alone
/// gives, in every language and for every date.
pub proof fn lemma_no_style_shows_short_date(tag: Seq<char>, zone: TimeZone, value: DateTimeFields)
    ensures
        Bag::spec_empty().fieldset() == (FieldSet {
            length: Some(Length::Short),
            date_fields: Some(DateFields::YMD),
            time_precision: None,
            zone_style: None,
        }),
        text_for(tag, Bag::spec_empty(), zone, value) == text_for(
            tag,
            Bag { date: Some(Date::Short), time: None },
            zone,
            value,
        ),
{
}

/// The text depends on the styles only through the field set that they
/// compile to: two compilations of one bag, or of two bags with one field
/// set, show every date in every language as the same text.
pub proof fn lemma_text_goes_by_field_set(
    tag: Seq<char>,
    first: Bag,
    second: Bag,
    zone: TimeZone,
    value: DateTimeFields,
)
    requires
        first.fieldset() == second.fieldset(),
    ensures
        text_for(tag, first, zone, value) == text_for(tag, second, zone, value),
{
}

/// A formatter that the cache holds for a language and styles shows the
/// text that a newly made formatter shows: which of the two renders a value
/// makes no difference, and no call sees another text than an earlier one.
pub proof fn lemma_cached_text_is_fresh_text(
    entries: Seq<CachedView>,
    tag: Seq<char>,
    options: Bag,
    index: int,
    zone: TimeZone,
    value: DateTimeFields,
)
    requires
        all_bound(entries),
        found_at(entries, tag, options, index),
    ensures
        formatter_for(tag, options.fieldset()) == Ok::<Formatter, ConstructionError>(
            entries[index].formatter,
        ),
        rendering_with(entries[index].formatter, zone, value) == text_for(tag, options, zone, value),
{
    assert(entries[index].is_bound());
}

/// A leap second is shown as the last nanosecond before it: a value with
/// second 60 and the same value at 59.999999999 seconds of the same minute
/// get the same zone attached and are shown as the same text.
pub proof fn lemma_leap_second_shows_as_clamped(
    formatter: ZonedFormatter,
    zone: TimeZone,
    value: DateTimeFields,
)
    requires
        value.is_valid(),
        value.is_leap_second(),
    ensures
        value.clamped() == (DateTimeFields { second: 59, nanosecond: 999_999_999, ..value }),
        value.clamped().is_valid(),
        !value.clamped().is_leap_second(),
        attached(zone, value) == attached(zone, value.clamped()),
        rendering_in_zone(formatter, zone, value) == rendering_in_zone(
            formatter,
            zone,
            value.clamped(),
        ),
{
}

impl FluentDateTime {
    /// The date and the time of day of the value.
    pub closed spec fn fields(&self) -> DateTimeFields {
        self.value@
    }

    /// The value that holds a date-time and options.
    pub closed spec fn with(value: DateValue, options: FluentDateTimeOptions) -> FluentDateTime {
        FluentDateTime { value, options }
    }

    /// The styles that the options of the value hold.
    pub closed spec fn styles(&self) -> Bag {
        self.options@
    }

    /// The same date-time with other styles.
    pub closed spec fn restyled(self, styles: Bag) -> FluentDateTime {
        FluentDateTime { value: self.value, options: FluentDateTimeOptions::from_bag(styles) }
    }

    /// A value holds the date-time and the options that it was made with,
    /// and restyling changes the styles and nothing else.
    pub proof fn lemma_with(value: DateValue, options: FluentDateTimeOptions, styles: Bag)
        ensures
            Self::with(value, options).fields() == value@,
            Self::with(value, options).styles() == options@,
            Self::with(value, options).restyled(styles) == Self::with(
                value,
                FluentDateTimeOptions::from_bag(styles),
            ),
            Self::with(value, options).restyled(options@) == Self::with(value, options),
    {
        options.lemma_from_bag();
    }

    /// Restyling changes the styles and nothing else.
    pub proof fn lemma_restyled(self, styles: Bag)
        ensures
            self.restyled(styles).fields() == self.fields(),
            self.restyled(styles).styles() == styles,
            self.restyled(self.styles()) == self,
    {
        self.options.lemma_from_bag();
    }

    /// The options of the value.
    pub fn options(&self) -> (options: FluentDateTimeOptions)
        ensures
            options@ == self.styles(),
    {
        self.options
    }

    /// The date and the time of day of the value.
    pub fn value(&self) -> (value: DateValue)
        ensures
            value@ == self.fields(),
    {
        self.value
    }

    /// The same date-time with other options.
    pub fn with_options(&self, options: FluentDateTimeOptions) -> (changed: FluentDateTime)
        ensures
            changed == self.restyled(options@),
            changed.fields() == self.fields(),
            changed.styles() == options@,
    {
        proof {
            options.lemma_from_bag();
        }
        FluentDateTime { value: self.value, options }
    }

    /// Renders the value in a language, with formatters kept in a cache that
    /// no one else uses meanwhile.
    ///
    /// The formatter of the language and the options is taken from the
    /// cache, or made and put there. The system's time zone is found only
    /// where the options show a zone, and only if it was not found before.
    /// The text is empty where no formatter can be made.
    pub fn as_string(&self, lang: &str, cache: &mut FormatterCache, zone: &mut SystemZone) -> (text:
        String)
        ensures
            final(cache)@ == asked(old(cache)@, lang@, self.styles()),
            distinct_keys(final(cache)@),
            all_bound(final(cache)@),
            old(zone).resolved() is Some ==> final(zone).resolved() == old(zone).resolved(),
            match formatter_for(lang@, self.styles().fieldset()) {
                Ok(Formatter::Naive(naive)) => {
                    &&& text@ == naive_rendering(naive, self.fields())
                    &&& final(zone).resolved() == old(zone).resolved()
                },
                Ok(Formatter::Zoned(zoned)) => {
                    &&& final(zone).resolved() matches Some(found)
                    &&& text@ == rendering_in_zone(zoned, found, self.fields())
                },
                Err(_) => {
                    &&& text@ == Seq::<char>::empty()
                    &&& final(zone).resolved() == old(zone).resolved()
                },
            },
    {
        match cache.get_or_build(lang, &self.options) {
            Ok(index) => cache.get(index).render(zone, &self.value),
            Err(_) => String::new(),
        }
    }

    /// Renders the value in a language without a cache: the formatter is
    /// made for this one call, so that any number of callers can render at
    /// once. The text is empty where no formatter can be made.
    pub fn as_string_threadsafe(&self, lang: &str) -> (text: String)
        ensures
            match formatter_for(lang@, self.styles().fieldset()) {
                Ok(Formatter::Naive(naive)) => text@ == naive_rendering(naive, self.fields()),
                Ok(Formatter::Zoned(zoned)) => exists|zone: TimeZone|
                    text@ == #[trigger] rendering_in_zone(zoned, zone, self.fields()),
                Err(_) => text@ == Seq::<char>::empty(),
            },
    {
        match self.options.make_formatter(lang) {
            Ok(formatter) => {
                let mut zone = SystemZone::new();
                let text = formatter.render(&mut zone, &self.value);
                proof {
                    if let Formatter::Zoned(zoned) = formatter@.formatter {
                        let found = zone.resolved()->Some_0;
                        assert(text@ == rendering_in_zone(zoned, found, self.fields()));
                    }
                }
                text
            },
            Err(_) => String::new(),
        }
    }

    /// Renders the value in a language without a cache, with the given zone
    /// as the time zone of the system.
    pub fn as_string_in_zone(&self, lang: &str, zone: &TimeZone) -> (text: String)
        ensures
            text@ == text_for(lang@, self.styles(), *zone, self.fields()),
    {
        match self.options.make_formatter(lang) {
            Ok(formatter) => formatter.render_with(zone, &self.value),
            Err(_) => String::new(),
        }
    }
}

} // verus!

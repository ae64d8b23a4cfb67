//! The formatter cache: one formatter for each pair of a language tag and a
//! bag of styles, built when the pair is first asked for and kept from then
//! on.

use jiff::tz::TimeZone;
use vstd::prelude::*;

use crate::args::str_eq;
use crate::datetime::{DateTimeFields, DateValue};
use crate::formatter::{
    build_formatter, format_naive, formatter_for, naive_rendering, render_in_zone,
    rendering_in_zone, ConstructionError, Formatter,
};
use crate::length::Bag;
use crate::options::FluentDateTimeOptions;
use crate::zone::SystemZone;

verus! {

/// A cached formatter as contracts see it.
pub struct CachedView {
    /// The language tag that the formatter was made for.
    pub tag: Seq<char>,
    /// The styles that the formatter was made for.
    pub options: Bag,
    /// The formatter.
    pub formatter: Formatter,
}

impl CachedView {
    /// Whether this is the entry of a language tag and a bag of styles.
    pub open spec fn has_key(self, tag: Seq<char>, options: Bag) -> bool {
        self.tag == tag && self.options == options
    }

    /// Whether the formatter is the one that its language tag and its
    /// styles give, and takes zoned date-times exactly where the styles show
    /// a zone.
    pub open spec fn is_bound(self) -> bool {
        &&& formatter_for(self.tag, self.options.fieldset()) == Ok::<Formatter, ConstructionError>(
            self.formatter,
        )
        &&& self.formatter is Zoned <==> self.options.fieldset().needs_zone()
    }
}

/// The text that a formatter shows for a naive date-time where `zone` is the
/// time zone of the system. The zone matters only to a formatter that shows
/// one.
pub open spec fn rendering_with(formatter: Formatter, zone: TimeZone, value: DateTimeFields) -> Seq<
    char,
> {
    match formatter {
        Formatter::Naive(naive) => naive_rendering(naive, value),
        Formatter::Zoned(zoned) => rendering_in_zone(zoned, zone, value),
    }
}

/// A formatter bound to the language tag and the styles that it was made
/// for. It never changes after it was made.
pub struct CachedFormatter {
    tag: String,
    options: FluentDateTimeOptions,
    formatter: Formatter,
}

impl View for CachedFormatter {
    type V = CachedView;

    closed spec fn view(&self) -> CachedView {
        CachedView { tag: self.tag@, options: self.options@, formatter: self.formatter }
    }
}

impl FluentDateTimeOptions {
    /// Makes the formatter of a language for these options.
    ///
    /// Fails with `Language` on a tag that does not parse and with `Data`
    /// where the formatter cannot be loaded; the field set of a bag of
    /// styles can always be built.
    pub fn make_formatter(&self, lang: &str) -> (made: Result<CachedFormatter, ConstructionError>)
        ensures
            match formatter_for(lang@, self@.fieldset()) {
                Ok(formatter) => made matches Ok(cached) && cached@ == (CachedView {
                    tag: lang@,
                    options: self@,
                    formatter,
                }),
                Err(error) => made matches Err(e) && e == error,
            },
            made matches Ok(cached) ==> cached@.is_bound(),
            made matches Err(error) ==> error != ConstructionError::FieldSet,
    {
        let fields = self.to_fieldset();
        match build_formatter(lang, &fields) {
            Ok(formatter) => Ok(
                CachedFormatter { tag: lang.to_owned(), options: *self, formatter },
            ),
            Err(error) => Err(error),
        }
    }
}

impl CachedFormatter {
    #[verifier::type_invariant]
    spec fn bound(self) -> bool {
        self@.is_bound()
    }

    /// Whether the formatter shows a zone, so that rendering needs the time
    /// zone of the system.
    pub fn needs_zone(&self) -> (needed: bool)
        ensures
            needed == self@.formatter is Zoned,
            needed == self@.options.fieldset().needs_zone(),
            self@.is_bound(),
    {
        proof {
            use_type_invariant(self);
        }
        match &self.formatter {
            Formatter::Naive(_) => false,
            Formatter::Zoned(_) => true,
        }
    }

    /// Renders a naive date-time.
    ///
    /// A formatter that shows a zone finds the system's time zone first,
    /// unless it was found before, and attaches it to the date-time; any
    /// other formatter leaves the zone state as it is.
    pub fn render(&self, zone: &mut SystemZone, value: &DateValue) -> (text: String)
        ensures
            self@.is_bound(),
            match self@.formatter {
                Formatter::Naive(naive) => {
                    &&& text@ == naive_rendering(naive, value@)
                    &&& final(zone).resolved() == old(zone).resolved()
                },
                Formatter::Zoned(zoned) => {
                    &&& final(zone).resolved() matches Some(found)
                    &&& text@ == rendering_in_zone(zoned, found, value@)
                    &&& old(zone).resolved() is Some ==> final(zone).resolved() == old(zone).resolved()
                },
            },
    {
        proof {
            use_type_invariant(self);
        }
        match &self.formatter {
            Formatter::Naive(naive) => format_naive(naive, value),
            Formatter::Zoned(zoned) => {
                zone.resolve();
                render_in_zone(zoned, zone.zone().unwrap(), value)
            },
        }
    }

    /// Renders a naive date-time, with the given zone as the time zone of
    /// the system.
    pub fn render_with(&self, zone: &TimeZone, value: &DateValue) -> (text: String)
        ensures
            text@ == rendering_with(self@.formatter, *zone, value@),
    {
        match &self.formatter {
            Formatter::Naive(naive) => format_naive(naive, value),
            Formatter::Zoned(zoned) => render_in_zone(zoned, zone, value),
        }
    }
}

/// Whether no two entries are for the same language tag and the same styles.
pub open spec fn distinct_keys(entries: Seq<CachedView>) -> bool {
    forall|i: int, j: int|
        0 <= i < j < entries.len() ==> !(#[trigger] entries[i]).has_key(
            (#[trigger] entries[j]).tag,
            entries[j].options,
        )
}

/// Whether every entry holds the formatter that its key gives.
pub open spec fn all_bound(entries: Seq<CachedView>) -> bool {
    forall|i: int| 0 <= i < entries.len() ==> (#[trigger] entries[i]).is_bound()
}

/// Whether `index` is the place of the entry of a language tag and a bag of
/// styles.
pub open spec fn found_at(entries: Seq<CachedView>, tag: Seq<char>, options: Bag, index: int) -> bool {
    0 <= index < entries.len() && entries[index].has_key(tag, options)
}

/// The place of the entry of a language tag and a bag of styles, if there is
/// one.
pub open spec fn position(entries: Seq<CachedView>, tag: Seq<char>, options: Bag) -> Option<int> {
    if exists|index: int| found_at(entries, tag, options, index) {
        Some(choose|index: int| found_at(entries, tag, options, index))
    } else {
        None
    }
}

/// The cache after an entry was offered to it: the entry is added at the
/// end unless its key has one already.
pub open spec fn offered(entries: Seq<CachedView>, entry: CachedView) -> Seq<CachedView> {
    if position(entries, entry.tag, entry.options) is Some {
        entries
    } else {
        entries.push(entry)
    }
}

/// The cache after the formatter of a key was asked for: a key that has none
/// gets the one that the tag and the styles give, if they give one.
pub open spec fn asked(entries: Seq<CachedView>, tag: Seq<char>, options: Bag) -> Seq<CachedView> {
    match formatter_for(tag, options.fieldset()) {
        Ok(formatter) => offered(entries, CachedView { tag, options, formatter }),
        Err(_) => entries,
    }
}

/// Where keys are distinct, the place of a key is the one place that holds
/// it.
pub proof fn lemma_position_is_unique(entries: Seq<CachedView>, tag: Seq<char>, options: Bag, index: int)
    requires
        distinct_keys(entries),
        found_at(entries, tag, options, index),
    ensures
        position(entries, tag, options) == Some(index),
{
    let chosen = choose|index: int| found_at(entries, tag, options, index);
    if chosen < index {
        assert(!entries[chosen].has_key(entries[index].tag, entries[index].options));
    } else if index < chosen {
        assert(!entries[index].has_key(entries[chosen].tag, entries[chosen].options));
    }
}

/// Adding the entry of a key that has none keeps the keys distinct, puts the
/// new key at the end, and leaves every other key where it was.
pub proof fn lemma_push_keeps_positions(entries: Seq<CachedView>, entry: CachedView)
    requires
        distinct_keys(entries),
        position(entries, entry.tag, entry.options) is None,
    ensures
        distinct_keys(entries.push(entry)),
        position(entries.push(entry), entry.tag, entry.options) == Some(entries.len() as int),
        forall|tag: Seq<char>, options: Bag|
            !entry.has_key(tag, options) ==> #[trigger] position(entries.push(entry), tag, options)
                == position(entries, tag, options),
{
    let after = entries.push(entry);
    assert forall|i: int, j: int| 0 <= i < j < after.len() implies !(#[trigger] after[i]).has_key(
        (#[trigger] after[j]).tag,
        after[j].options,
    ) by {
        if j == entries.len() {
            assert(!found_at(entries, entry.tag, entry.options, i));
        } else {
            assert(!entries[i].has_key(entries[j].tag, entries[j].options));
        }
    }
    assert(found_at(after, entry.tag, entry.options, entries.len() as int));
    lemma_position_is_unique(after, entry.tag, entry.options, entries.len() as int);
    assert forall|tag: Seq<char>, options: Bag| !entry.has_key(tag, options) implies #[trigger] position(
        after,
        tag,
        options,
    ) == position(entries, tag, options) by {
        if exists|index: int| found_at(entries, tag, options, index) {
            let index = choose|index: int| found_at(entries, tag, options, index);
            assert(found_at(after, tag, options, index));
            lemma_position_is_unique(entries, tag, options, index);
            lemma_position_is_unique(after, tag, options, index);
        } else {
            assert forall|index: int| !found_at(after, tag, options, index) by {
                if 0 <= index < entries.len() {
                    assert(!found_at(entries, tag, options, index));
                }
            }
        }
    }
}

/// Asking for the formatter of a key keeps the keys distinct, and asking
/// again changes nothing: the key has its formatter from the first time on,
/// unless none could be made, and then nothing was kept.
pub proof fn lemma_asked_again_changes_nothing(entries: Seq<CachedView>, tag: Seq<char>, options: Bag)
    requires
        distinct_keys(entries),
    ensures
        distinct_keys(asked(entries, tag, options)),
        asked(asked(entries, tag, options), tag, options) == asked(entries, tag, options),
        position(asked(entries, tag, options), tag, options) is Some <==> position(
            entries,
            tag,
            options,
        ) is Some || formatter_for(tag, options.fieldset()) is Ok,
        formatter_for(tag, options.fieldset()) is Err ==> asked(entries, tag, options) == entries,
{
    if let Ok(formatter) = formatter_for(tag, options.fieldset()) {
        let entry = CachedView { tag, options, formatter };
        if position(entries, tag, options) is None {
            lemma_push_keeps_positions(entries, entry);
        }
    }
}

/// Of two formatters that were made for one key, the cache keeps the one
/// that was offered first and drops the other: the key has one entry, at the
/// place where the first one went, and every entry that was there before is
/// where it was.
pub proof fn lemma_second_offer_is_dropped(entries: Seq<CachedView>, first: CachedView, second: CachedView)
    requires
        distinct_keys(entries),
        second.has_key(first.tag, first.options),
    ensures
        distinct_keys(offered(entries, first)),
        offered(offered(entries, first), second) == offered(entries, first),
        position(offered(entries, first), first.tag, first.options) is Some,
        forall|index: int|
            0 <= index < entries.len() ==> offered(entries, first)[index] == #[trigger] entries[index],
{
    if position(entries, first.tag, first.options) is None {
        lemma_push_keeps_positions(entries, first);
    }
}

/// The cache of formatters, each under the language tag and the styles that
/// it was made for.
///
/// No key has two entries, every entry holds the formatter that its key
/// gives, and an entry that was added stays at its place for as long as the
/// cache lives.
pub struct FormatterCache {
    entries: Vec<CachedFormatter>,
}

impl View for FormatterCache {
    type V = Seq<CachedView>;

    closed spec fn view(&self) -> Seq<CachedView> {
        self.entries@.map_values(|entry: CachedFormatter| entry@)
    }
}

impl FormatterCache {
    #[verifier::type_invariant]
    spec fn well_formed(self) -> bool {
        distinct_keys(self@) && all_bound(self@)
    }

    /// A cache with no formatter in it.
    pub fn new() -> (cache: FormatterCache)
        ensures
            cache@ == Seq::<CachedView>::empty(),
    {
        let cache = FormatterCache { entries: Vec::new() };
        assert(cache@ == Seq::<CachedView>::empty());
        cache
    }

    /// The number of formatters in the cache.
    pub fn len(&self) -> (len: usize)
        ensures
            len == self@.len(),
            distinct_keys(self@),
            all_bound(self@),
    {
        proof {
            use_type_invariant(self);
        }
        self.entries.len()
    }

    /// The formatter at a place of the cache.
    pub fn get(&self, index: usize) -> (cached: &CachedFormatter)
        requires
            index < self@.len(),
        ensures
            cached@ == self@[index as int],
            cached@.is_bound(),
    {
        proof {
            use_type_invariant(self);
            assert(self@[index as int].is_bound());
        }
        &self.entries[index]
    }

    /// Looks for the formatter of a language tag and a bag of styles, and
    /// leaves the cache as it is.
    pub fn lookup(&self, lang: &str, options: &FluentDateTimeOptions) -> (found: Option<usize>)
        ensures
            distinct_keys(self@),
            position(self@, lang@, options@) == (match found {
                Some(index) => Some(index as int),
                None => None,
            }),
            found matches Some(index) ==> index < self@.len(),
    {
        proof {
            use_type_invariant(self);
        }
        let mut i: usize = 0;
        while i < self.entries.len()
            invariant
                i <= self.entries.len(),
                self@.len() == self.entries.len(),
                self@ == self.entries@.map_values(|entry: CachedFormatter| entry@),
                distinct_keys(self@),
                forall|k: int| 0 <= k < i ==> !found_at(self@, lang@, options@, k),
            decreases self.entries.len() - i,
        {
            let entry = &self.entries[i];
            assert(self@[i as int] == entry@);
            if str_eq(entry.tag.as_str(), lang) && entry.options.length() == options.length() {
                proof {
                    assert(found_at(self@, lang@, options@, i as int));
                    lemma_position_is_unique(self@, lang@, options@, i as int);
                }
                return Some(i);
            }
            i = i + 1;
        }
        None
    }

    /// Puts a formatter into the cache unless its key has one already, and
    /// says where the formatter of the key now is. A formatter whose key has
    /// one already is dropped and the cache stays as it is.
    pub fn insert_or_discard(&mut self, built: CachedFormatter) -> (index: usize)
        ensures
            distinct_keys(final(self)@),
            all_bound(final(self)@),
            final(self)@ == offered(old(self)@, built@),
            position(final(self)@, built@.tag, built@.options) == Some(index as int),
            position(old(self)@, built@.tag, built@.options) is None ==> index == old(self)@.len(),
    {
        proof {
            use_type_invariant(&*self);
            use_type_invariant(&built);
        }
        match self.lookup(built.tag.as_str(), &built.options) {
            Some(kept) => kept,
            None => {
                let index = self.entries.len();
                let ghost before = self@;
                let mut taken = FormatterCache { entries: Vec::new() };
                assert(taken@ == Seq::<CachedView>::empty());
                core::mem::swap(self, &mut taken);
                let mut entries = taken.entries;
                assert(entries@.map_values(|entry: CachedFormatter| entry@) == before);
                entries.push(built);
                proof {
                    lemma_push_keeps_positions(before, built@);
                    assert(entries@.map_values(|entry: CachedFormatter| entry@) == before.push(
                        built@,
                    ));
                }
                *self = FormatterCache { entries };
                index
            },
        }
    }

    /// Finds the formatter of a language tag and a bag of styles, or makes
    /// it and keeps it, and says where it is.
    ///
    /// A key that has a formatter keeps it and the cache stays as it is. A
    /// key that has none gets the one that the tag and the styles give, at
    /// the end of the cache. Where none can be made the error comes back and
    /// nothing is kept, so that a later call is not held up by it.
    pub fn get_or_build(&mut self, lang: &str, options: &FluentDateTimeOptions) -> (outcome: Result<
        usize,
        ConstructionError,
    >)
        ensures
            distinct_keys(final(self)@),
            all_bound(final(self)@),
            final(self)@ == asked(old(self)@, lang@, options@),
            match outcome {
                Ok(index) => {
                    &&& position(final(self)@, lang@, options@) == Some(index as int)
                    &&& formatter_for(lang@, options@.fieldset()) == Ok::<
                        Formatter,
                        ConstructionError,
                    >(final(self)@[index as int].formatter)
                    &&& position(old(self)@, lang@, options@) is None ==> index == old(self)@.len()
                },
                Err(error) => {
                    &&& position(old(self)@, lang@, options@) is None
                    &&& formatter_for(lang@, options@.fieldset()) == Err::<
                        Formatter,
                        ConstructionError,
                    >(error)
                    &&& final(self)@ == old(self)@
                },
            },
    {
        proof {
            use_type_invariant(&*self);
        }
        match self.lookup(lang, options) {
            Some(index) => Ok(index),
            None => match options.make_formatter(lang) {
                Ok(built) => Ok(self.insert_or_discard(built)),
                Err(error) => Err(error),
            },
        }
    }
}

} // verus!

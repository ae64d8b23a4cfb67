//! The presentation options of a date-time value.

use fluent_bundle::FluentArgs;
use vstd::prelude::*;

use crate::args::{arg_views, collect_named_args, merge_named, merged, named_args, NamedArg};
use crate::fieldset::FieldSet;
use crate::length::{Bag, Date, Time};

verus! {

/// Options for formatting a date-time: a date style, a time style, both or
/// neither.
///
/// With neither set, the date is shown in the short style and the time is
/// not shown.
#[derive(Debug, Clone, Copy, PartialEq, Eq, Hash, Structural)]
pub struct FluentDateTimeOptions {
    length: Bag,
}

impl View for FluentDateTimeOptions {
    type V = Bag;

    closed spec fn view(&self) -> Bag {
        self.length
    }
}

impl Default for FluentDateTimeOptions {
    /// No style set: this shows a short date.
    fn default() -> (options: Self)
        ensures
            options == Self::from_bag(Bag::spec_empty()),
            options@ == Bag::spec_empty(),
    {
        Self { length: Bag::empty() }
    }
}

impl FluentDateTimeOptions {
    /// The options that hold the given bag of styles.
    pub closed spec fn from_bag(length: Bag) -> Self {
        Self { length }
    }

    /// The options are what their bag of styles says, and nothing more.
    pub proof fn lemma_from_bag(self)
        ensures
            self == Self::from_bag(self@),
            forall|length: Bag| (#[trigger] Self::from_bag(length))@ == length,
    {
    }

    /// The options that hold the given bag of styles.
    pub fn from_length(length: Bag) -> (options: Self)
        ensures
            options == Self::from_bag(length),
            options@ == length,
    {
        Self { length }
    }

    /// The styles that are set.
    pub fn length(&self) -> (length: Bag)
        ensures
            length == self@,
    {
        self.length
    }

    /// Sets or unsets the date style, from verbose to compact.
    pub fn set_date_style(&mut self, style: Option<Date>)
        ensures
            final(self)@ == (Bag { date: style, time: old(self)@.time }),
    {
        self.length.date = style;
    }

    /// Sets or unsets the time style, from verbose to compact.
    pub fn set_time_style(&mut self, style: Option<Time>)
        ensures
            final(self)@ == (Bag { date: old(self)@.date, time: style }),
    {
        self.length.time = style;
    }

    /// The field set that these options ask a formatter for.
    pub fn to_fieldset(&self) -> (fields: FieldSet)
        ensures
            fields == self@.fieldset(),
            fields.is_buildable(),
            fields.shows_date_or_time(),
    {
        self.length.to_fieldset_builder()
    }

    /// Applies the named arguments of a call, in order.
    ///
    /// Succeeds with every `dateStyle` and `timeStyle` applied, or fails on
    /// the first of them whose value names no style and leaves the options
    /// as they were.
    pub fn merge_named_args(&mut self, args: &[NamedArg]) -> (outcome: Result<(), ()>)
        ensures
            match merged(old(self)@, arg_views(args@)) {
                Some(bag) => outcome is Ok && final(self)@ == bag,
                None => outcome is Err && *final(self) == *old(self),
            },
    {
        match merge_named(self.length, args) {
            Some(bag) => {
                self.length = bag;
                Ok(())
            },
            None => Err(()),
        }
    }

    /// Applies the named arguments of a Fluent call.
    ///
    /// Succeeds with every `dateStyle` and `timeStyle` applied, or fails on
    /// the first of them whose value names no style and leaves the options
    /// as they were.
    pub fn merge_args(&mut self, other: &FluentArgs<'_>) -> (outcome: Result<(), ()>)
        ensures
            match merged(old(self)@, named_args(*other)) {
                Some(bag) => outcome is Ok && final(self)@ == bag,
                None => outcome is Err && *final(self) == *old(self),
            },
    {
        let args = collect_named_args(other);
        self.merge_named_args(args.as_slice())
    }
}

} // verus!

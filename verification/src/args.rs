//! Named arguments of a template function call, as far as the date-time
//! function reads them: each has a name and, where its value is a string,
//! that string.

use fluent_bundle::{FluentArgs, FluentValue};
use vstd::prelude::*;

use crate::length::{Bag, Date, Time};

verus! {

/// A named argument as contracts see it.
pub struct ArgView {
    /// The argument's name.
    pub name: Seq<char>,
    /// The argument's value where it is a string, `None` for any other kind.
    pub text: Option<Seq<char>>,
}

/// A named argument of a function call.
#[derive(Debug, Clone, PartialEq, Eq)]
pub struct NamedArg {
    /// The argument's name.
    pub name: String,
    /// The argument's value where it is a string, `None` for any other kind.
    pub text: Option<String>,
}

impl View for NamedArg {
    type V = ArgView;

    open spec fn view(&self) -> ArgView {
        ArgView {
            name: self.name@,
            text: match self.text {
                Some(s) => Some(s@),
                None => None,
            },
        }
    }
}

/// The views of a sequence of named arguments, in order.
pub open spec fn arg_views(args: Seq<NamedArg>) -> Seq<ArgView> {
    args.map_values(|a: NamedArg| a@)
}

/// Fluent's `FluentArgs`: the named arguments of a call, a list of names
/// with their values.
#[verifier::external_type_specification]
#[verifier::external_body]
pub struct ExFluentArgs<'args>(FluentArgs<'args>);

/// The arguments that a `FluentArgs` holds, in the order in which its `iter`
/// yields them: each name, with the value's text where the value is a
/// `FluentValue::String`.
pub uninterp spec fn named_args(args: FluentArgs<'_>) -> Seq<ArgView>;

/// `FluentArgs::iter`: hands out every argument once, in the list's order,
/// as its name and, for a string value, its text.
#[verifier::external_body]
pub(crate) fn collect_named_args(args: &FluentArgs<'_>) -> (list: Vec<NamedArg>)
    ensures
        arg_views(list@) == named_args(*args),
{
    let mut list = Vec::new();
    for (name, value) in args.iter() {
        let text = match value {
            FluentValue::String(s) => Some(s.to_string()),
            _ => None,
        };
        list.push(NamedArg { name: name.to_string(), text });
    }
    list
}

/// `str`'s `==`: whether two strings hold the same characters.
#[verifier::external_body]
pub(crate) fn str_eq(a: &str, b: &str) -> (same: bool)
    ensures
        same == (a@ == b@),
{
    a == b
}

/// The date length that a spelling names, if it is one of the four.
pub open spec fn date_style_of(text: Seq<char>) -> Option<Date> {
    if text == "full"@ {
        Some(Date::Full)
    } else if text == "long"@ {
        Some(Date::Long)
    } else if text == "medium"@ {
        Some(Date::Medium)
    } else if text == "short"@ {
        Some(Date::Short)
    } else {
        None
    }
}

/// The time length that a spelling names, if it is one of the four.
pub open spec fn time_style_of(text: Seq<char>) -> Option<Time> {
    if text == "full"@ {
        Some(Time::Full)
    } else if text == "long"@ {
        Some(Time::Long)
    } else if text == "medium"@ {
        Some(Time::Medium)
    } else if text == "short"@ {
        Some(Time::Short)
    } else {
        None
    }
}

/// What one named argument does to a bag.
///
/// `dateStyle` and `timeStyle` replace their axis when the value is a string
/// that names a length, and fail otherwise; any other name leaves the bag as
/// it is.
pub open spec fn apply_arg(bag: Bag, arg: ArgView) -> Option<Bag> {
    if arg.name == "dateStyle"@ {
        match arg.text {
            Some(text) => match date_style_of(text) {
                Some(date) => Some(Bag { date: Some(date), time: bag.time }),
                None => None,
            },
            None => None,
        }
    } else if arg.name == "timeStyle"@ {
        match arg.text {
            Some(text) => match time_style_of(text) {
                Some(time) => Some(Bag { date: bag.date, time: Some(time) }),
                None => None,
            },
            None => None,
        }
    } else {
        Some(bag)
    }
}

/// Whether a named argument can be applied: it is not a `dateStyle` or a
/// `timeStyle` whose value is no string or names no style.
pub open spec fn is_accepted(arg: ArgView) -> bool {
    if arg.name == "dateStyle"@ {
        arg.text matches Some(text) && date_style_of(text) is Some
    } else if arg.name == "timeStyle"@ {
        arg.text matches Some(text) && time_style_of(text) is Some
    } else {
        true
    }
}

/// Whether a named argument is neither a `dateStyle` nor a `timeStyle`.
pub open spec fn is_passed_over(arg: ArgView) -> bool {
    arg.name != "dateStyle"@ && arg.name != "timeStyle"@
}

/// Whether every one of the arguments can be applied.
pub open spec fn all_accepted(args: Seq<ArgView>) -> bool {
    forall|i: int| 0 <= i < args.len() ==> is_accepted(#[trigger] args[i])
}

/// The date style after the arguments: the one that the last `dateStyle`
/// names, or the one before where there is no `dateStyle`.
pub open spec fn last_date_style(before: Option<Date>, args: Seq<ArgView>) -> Option<Date>
    decreases args.len(),
{
    if args.len() == 0 {
        before
    } else if args.last().name == "dateStyle"@ {
        match args.last().text {
            Some(text) => date_style_of(text),
            None => None,
        }
    } else {
        last_date_style(before, args.drop_last())
    }
}

/// The time style after the arguments: the one that the last `timeStyle`
/// names, or the one before where there is no `timeStyle`.
pub open spec fn last_time_style(before: Option<Time>, args: Seq<ArgView>) -> Option<Time>
    decreases args.len(),
{
    if args.len() == 0 {
        before
    } else if args.last().name == "timeStyle"@ {
        match args.last().text {
            Some(text) => time_style_of(text),
            None => None,
        }
    } else {
        last_time_style(before, args.drop_last())
    }
}

/// The bag after a call's named arguments were merged into it.
///
/// The merge fails as a whole, with `None`, where one of the arguments
/// cannot be applied. Where it succeeds, a style that is named replaces the
/// one before, whatever it was, and a style that is not named stays.
pub open spec fn merged(bag: Bag, args: Seq<ArgView>) -> Option<Bag> {
    if all_accepted(args) {
        Some(
            Bag {
                date: last_date_style(bag.date, args),
                time: last_time_style(bag.time, args),
            },
        )
    } else {
        None
    }
}

/// Reads a date length from its spelling.
pub fn parse_date_style(text: &str) -> (style: Option<Date>)
    ensures
        style == date_style_of(text@),
{
    if str_eq(text, "full") {
        Some(Date::Full)
    } else if str_eq(text, "long") {
        Some(Date::Long)
    } else if str_eq(text, "medium") {
        Some(Date::Medium)
    } else if str_eq(text, "short") {
        Some(Date::Short)
    } else {
        None
    }
}

/// Reads a time length from its spelling.
pub fn parse_time_style(text: &str) -> (style: Option<Time>)
    ensures
        style == time_style_of(text@),
{
    if str_eq(text, "full") {
        Some(Time::Full)
    } else if str_eq(text, "long") {
        Some(Time::Long)
    } else if str_eq(text, "medium") {
        Some(Time::Medium)
    } else if str_eq(text, "short") {
        Some(Time::Short)
    } else {
        None
    }
}

/// Applies one named argument to a bag.
pub fn apply_named_arg(bag: Bag, arg: &NamedArg) -> (after: Option<Bag>)
    ensures
        after == apply_arg(bag, arg@),
{
    if str_eq(arg.name.as_str(), "dateStyle") {
        match &arg.text {
            Some(text) => match parse_date_style(text.as_str()) {
                Some(date) => Some(Bag { date: Some(date), time: bag.time }),
                None => None,
            },
            None => None,
        }
    } else if str_eq(arg.name.as_str(), "timeStyle") {
        match &arg.text {
            Some(text) => match parse_time_style(text.as_str()) {
                Some(time) => Some(Bag { date: bag.date, time: Some(time) }),
                None => None,
            },
            None => None,
        }
    } else {
        Some(bag)
    }
}

/// Merging goes argument by argument: merging one more argument is applying
/// it to the bag that the arguments before it gave, and fails where they
/// failed or where it cannot be applied.
pub proof fn lemma_merged_one_more(bag: Bag, args: Seq<ArgView>, arg: ArgView)
    ensures
        merged(bag, args.push(arg)) == (match merged(bag, args) {
            Some(before) => apply_arg(before, arg),
            None => None,
        }),
{
    reveal_strlit("dateStyle");
    reveal_strlit("timeStyle");
    assert("dateStyle"@[0] != "timeStyle"@[0]);
    let more = args.push(arg);
    assert(more.drop_last() == args);
    assert(more.last() == arg);
    if all_accepted(more) {
        assert forall|i: int| 0 <= i < args.len() implies is_accepted(#[trigger] args[i]) by {
            assert(more[i] == args[i]);
        }
        assert(is_accepted(more[args.len() as int]));
    } else if all_accepted(args) {
        if is_accepted(arg) {
            assert forall|i: int| 0 <= i < more.len() implies is_accepted(#[trigger] more[i]) by {
                if i < args.len() {
                    assert(more[i] == args[i]);
                }
            }
        }
    }
}

/// Arguments with other names than `dateStyle` and `timeStyle` change
/// nothing and never fail.
pub proof fn lemma_merged_passes_over_other_names(bag: Bag, args: Seq<ArgView>)
    requires
        forall|i: int| 0 <= i < args.len() ==> is_passed_over(#[trigger] args[i]),
    ensures
        merged(bag, args) == Some(bag),
    decreases args.len(),
{
    if args.len() > 0 {
        let front = args.drop_last();
        assert forall|i: int| 0 <= i < front.len() implies is_passed_over(#[trigger] front[i]) by {
            assert(front[i] == args[i]);
        }
        lemma_merged_passes_over_other_names(bag, front);
        assert(is_passed_over(args[args.len() - 1]));
        assert(args == front.push(args.last()));
        lemma_merged_one_more(bag, front, args.last());
    }
}

/// One argument that cannot be applied fails the whole merge, wherever it
/// stands among the others.
pub proof fn lemma_merged_fails_on_one_bad_argument(bag: Bag, args: Seq<ArgView>, i: int)
    requires
        0 <= i < args.len(),
        !is_accepted(args[i]),
    ensures
        merged(bag, args) is None,
{
}

/// Merges the named arguments of a call into a bag.
pub fn merge_named(bag: Bag, args: &[NamedArg]) -> (after: Option<Bag>)
    ensures
        after == merged(bag, arg_views(args@)),
{
    let ghost views = arg_views(args@);
    let mut current = bag;
    let mut i: usize = 0;
    assert(views.take(0) == Seq::<ArgView>::empty());
    while i < args.len()
        invariant
            i <= args.len(),
            views == arg_views(args@),
            merged(bag, views.take(i as int)) == Some(current),
        decreases args.len() - i,
    {
        proof {
            assert(views.take(i + 1) == views.take(i as int).push(args[i as int]@));
            lemma_merged_one_more(bag, views.take(i as int), args[i as int]@);
        }
        match apply_named_arg(current, &args[i]) {
            Some(next) => {
                current = next;
            },
            None => {
                assert(!is_accepted(views[i as int]));
                return None;
            },
        }
        i = i + 1;
    }
    assert(views.take(i as int) == views);
    Some(current)
}

} // verus!

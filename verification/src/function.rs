//! The `DATETIME` function of a template: it takes a date-time value and
//! gives it back with the styles that the call names.

use fluent_bundle::FluentArgs;
use vstd::prelude::*;

use crate::args::{arg_views, collect_named_args, merged, named_args, ArgView, NamedArg};
use crate::value::FluentDateTime;

verus! {

/// A value of the template engine, as far as the function tells values
/// apart.
#[derive(Debug, Clone, Copy, PartialEq, Eq, Structural)]
pub enum Value {
    /// A date-time value.
    DateTime(FluentDateTime),
    /// A value of any other kind.
    Other,
    /// The sign that a function could not give a value.
    Error,
}

/// What the function gives for the arguments of a call.
///
/// The first positional argument must be a date-time; the function gives it
/// back with the named arguments applied to its styles. It gives the error
/// sign where there is no first argument, where it is no date-time, and
/// where a `dateStyle` or a `timeStyle` names no style.
pub open spec fn datetime_result(positional: Seq<Value>, named: Seq<ArgView>) -> Value {
    if positional.len() > 0 && positional[0] is DateTime {
        let given = positional[0]->DateTime_0;
        match merged(given.styles(), named) {
            Some(styles) => Value::DateTime(given.restyled(styles)),
            None => Value::Error,
        }
    } else {
        Value::Error
    }
}

/// The `DATETIME` function on arguments that were read out of the call.
///
/// Only `dateStyle` and `timeStyle` are read; other names and further
/// positional arguments are passed over. The value that was given is not
/// changed: the result is a new one.
pub fn datetime_with(positional: &[Value], named: &[NamedArg]) -> (result: Value)
    ensures
        result == datetime_result(positional@, arg_views(named@)),
{
    if positional.len() == 0 {
        return Value::Error;
    }
    match positional[0] {
        Value::DateTime(given) => {
            let mut options = given.options();
            match options.merge_named_args(named) {
                Ok(()) => Value::DateTime(given.with_options(options)),
                Err(()) => Value::Error,
            }
        },
        _ => Value::Error,
    }
}

/// A Fluent function for formatted date-times.
///
/// ```fluent
/// today-is = Today is {$date}
/// today-is-fulldate = Today is {DATETIME($date, dateStyle: "full")}
/// now-is-time = Now is {DATETIME($date, timeStyle: "medium")}
/// now-is-datetime = Now is {DATETIME($date, dateStyle: "full", timeStyle: "short")}
/// ```
///
/// Only a subset of the formatting options is implemented: `dateStyle` and
/// `timeStyle`. Unknown options and extra positional arguments are ignored;
/// an unknown value of a known option gives the error sign.
#[allow(non_snake_case)]
pub fn DATETIME(positional: &[Value], named: &FluentArgs<'_>) -> (result: Value)
    ensures
        result == datetime_result(positional@, named_args(*named)),
{
    let args = collect_named_args(named);
    datetime_with(positional, args.as_slice())
}

} // verus!

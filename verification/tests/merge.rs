use fluent_bundle::{FluentArgs, FluentValue};
use fluent_datetime::args::{
    apply_named_arg, merge_named, parse_date_style, parse_time_style, NamedArg,
};
use fluent_datetime::length::{Bag, Date, Time};
use fluent_datetime::FluentDateTimeOptions;

fn text_arg(name: &str, text: &str) -> NamedArg {
    NamedArg { name: name.to_string(), text: Some(text.to_string()) }
}

fn other_arg(name: &str) -> NamedArg {
    NamedArg { name: name.to_string(), text: None }
}

#[test]
fn date_style_spellings() {
    assert_eq!(parse_date_style("full"), Some(Date::Full));
    assert_eq!(parse_date_style("long"), Some(Date::Long));
    assert_eq!(parse_date_style("medium"), Some(Date::Medium));
    assert_eq!(parse_date_style("short"), Some(Date::Short));
    assert_eq!(parse_date_style("Full"), None);
    assert_eq!(parse_date_style(""), None);
    assert_eq!(parse_date_style("bogus"), None);
}

#[test]
fn time_style_spellings() {
    assert_eq!(parse_time_style("full"), Some(Time::Full));
    assert_eq!(parse_time_style("long"), Some(Time::Long));
    assert_eq!(parse_time_style("medium"), Some(Time::Medium));
    assert_eq!(parse_time_style("short"), Some(Time::Short));
    assert_eq!(parse_time_style("SHORT"), None);
    assert_eq!(parse_time_style("shorter"), None);
}

#[test]
fn one_argument_on_a_bag() {
    let bag = Bag { date: Some(Date::Short), time: Some(Time::Medium) };
    assert_eq!(
        apply_named_arg(bag, &text_arg("dateStyle", "long")),
        Some(Bag { date: Some(Date::Long), time: Some(Time::Medium) })
    );
    assert_eq!(
        apply_named_arg(bag, &text_arg("timeStyle", "full")),
        Some(Bag { date: Some(Date::Short), time: Some(Time::Full) })
    );
    assert_eq!(apply_named_arg(bag, &text_arg("dateStyle", "bogus")), None);
    assert_eq!(apply_named_arg(bag, &other_arg("timeStyle")), None);
    assert_eq!(apply_named_arg(bag, &text_arg("hour12", "bogus")), Some(bag));
    assert_eq!(apply_named_arg(bag, &other_arg("datestyle")), Some(bag));
}

#[test]
fn merge_date_style_full_on_empty_bag() {
    let mut args = FluentArgs::new();
    args.set("dateStyle", "full");
    let mut options = FluentDateTimeOptions::default();
    assert_eq!(options.merge_args(&args), Ok(()));
    assert_eq!(options.length(), Bag { date: Some(Date::Full), time: None });
}

#[test]
fn merge_bogus_date_style_fails_and_changes_nothing() {
    let mut args = FluentArgs::new();
    args.set("dateStyle", "bogus");
    let mut options = FluentDateTimeOptions::default();
    assert_eq!(options.merge_args(&args), Err(()));
    assert_eq!(options, FluentDateTimeOptions::default());
}

#[test]
fn merge_unknown_key_succeeds_with_no_change() {
    let mut args = FluentArgs::new();
    args.set("unknownKey", "x");
    let mut options = FluentDateTimeOptions::default();
    assert_eq!(options.merge_args(&args), Ok(()));
    assert_eq!(options, FluentDateTimeOptions::default());
}

#[test]
fn merge_failure_leaves_no_partial_change() {
    let mut args = FluentArgs::new();
    args.set("dateStyle", "full");
    args.set("timeStyle", "bogus");
    let before = FluentDateTimeOptions::from_length(Bag {
        date: Some(Date::Short),
        time: Some(Time::Short),
    });
    let mut options = before;
    assert_eq!(options.merge_args(&args), Err(()));
    assert_eq!(options, before);
}

#[test]
fn merge_rejects_a_style_that_is_no_string() {
    let mut args = FluentArgs::new();
    args.set("timeStyle", 5);
    let mut options = FluentDateTimeOptions::default();
    assert_eq!(options.merge_args(&args), Err(()));
    assert_eq!(options, FluentDateTimeOptions::default());
    let mut args = FluentArgs::new();
    args.set("dateStyle", FluentValue::None);
    assert_eq!(options.merge_args(&args), Err(()));
}

#[test]
fn merge_both_styles_replaces_what_was_set() {
    let mut args = FluentArgs::new();
    args.set("timeStyle", "short");
    args.set("dateStyle", "medium");
    args.set("calendar", "buddhist");
    let mut options = FluentDateTimeOptions::from_length(Bag {
        date: Some(Date::Full),
        time: Some(Time::Full),
    });
    assert_eq!(options.merge_args(&args), Ok(()));
    assert_eq!(options.length(), Bag { date: Some(Date::Medium), time: Some(Time::Short) });
}

#[test]
fn merge_keeps_the_axis_that_is_not_named() {
    let mut args = FluentArgs::new();
    args.set("timeStyle", "long");
    let mut options = FluentDateTimeOptions::default();
    options.set_date_style(Some(Date::Long));
    assert_eq!(options.merge_args(&args), Ok(()));
    assert_eq!(options.length(), Bag { date: Some(Date::Long), time: Some(Time::Long) });
}

#[test]
fn merge_of_no_arguments_changes_nothing() {
    let args = FluentArgs::new();
    let mut options = FluentDateTimeOptions::default();
    options.set_time_style(Some(Time::Medium));
    let before = options;
    assert_eq!(options.merge_args(&args), Ok(()));
    assert_eq!(options, before);
}

#[test]
fn the_last_of_two_styles_wins() {
    let bag = Bag::empty();
    let args = vec![text_arg("dateStyle", "full"), text_arg("dateStyle", "short")];
    assert_eq!(merge_named(bag, &args), Some(Bag { date: Some(Date::Short), time: None }));
    let args = vec![text_arg("dateStyle", "full"), text_arg("dateStyle", "nope")];
    assert_eq!(merge_named(bag, &args), None);
    let args = vec![text_arg("dateStyle", "nope"), text_arg("dateStyle", "full")];
    assert_eq!(merge_named(bag, &args), None);
}

#[test]
fn merge_named_args_on_options() {
    let mut options = FluentDateTimeOptions::default();
    let args = vec![text_arg("x", "y"), text_arg("timeStyle", "medium")];
    assert_eq!(options.merge_named_args(&args), Ok(()));
    assert_eq!(options.length(), Bag { date: None, time: Some(Time::Medium) });
    let before = options;
    let args = vec![text_arg("dateStyle", "full"), other_arg("timeStyle")];
    assert_eq!(options.merge_named_args(&args), Err(()));
    assert_eq!(options, before);
}

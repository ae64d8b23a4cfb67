use fluent_bundle::FluentArgs;
use fluent_datetime::args::NamedArg;
use fluent_datetime::datetime::DateValue;
use fluent_datetime::function::{datetime_with, Value};
use fluent_datetime::length::{Bag, Date, Time};
use fluent_datetime::{FluentDateTime, FluentDateTimeOptions, DATETIME};

fn date() -> FluentDateTime {
    FluentDateTime::from(DateValue::try_new(1989, 11, 9, 23, 30, 0, 0).unwrap())
}

fn restyled(date_style: Option<Date>, time_style: Option<Time>) -> Value {
    Value::DateTime(date().with_options(FluentDateTimeOptions::from_length(Bag {
        date: date_style,
        time: time_style,
    })))
}

#[test]
fn datetime_applies_the_named_styles() {
    let mut named = FluentArgs::new();
    named.set("dateStyle", "full");
    named.set("timeStyle", "short");
    let given = [Value::DateTime(date())];
    assert_eq!(DATETIME(&given, &named), restyled(Some(Date::Full), Some(Time::Short)));
    assert_eq!(given[0], Value::DateTime(date()));
}

#[test]
fn datetime_without_named_arguments_gives_the_value_back() {
    let named = FluentArgs::new();
    let given = [restyled(Some(Date::Long), None)];
    assert_eq!(DATETIME(&given, &named), given[0]);
}

#[test]
fn datetime_passes_over_unknown_options_and_further_positionals() {
    let mut named = FluentArgs::new();
    named.set("hour12", "true");
    named.set("timeStyle", "medium");
    let given = [Value::DateTime(date()), Value::Other, Value::Error];
    assert_eq!(DATETIME(&given, &named), restyled(None, Some(Time::Medium)));
}

#[test]
fn datetime_gives_the_error_sign_for_an_unknown_style() {
    let mut named = FluentArgs::new();
    named.set("dateStyle", "fullest");
    assert_eq!(DATETIME(&[Value::DateTime(date())], &named), Value::Error);
    let mut named = FluentArgs::new();
    named.set("timeStyle", 12);
    assert_eq!(DATETIME(&[Value::DateTime(date())], &named), Value::Error);
}

#[test]
fn datetime_gives_the_error_sign_without_a_date_time() {
    let mut named = FluentArgs::new();
    named.set("dateStyle", "full");
    assert_eq!(DATETIME(&[], &named), Value::Error);
    assert_eq!(DATETIME(&[Value::Other], &named), Value::Error);
    assert_eq!(DATETIME(&[Value::Error], &named), Value::Error);
    assert_eq!(DATETIME(&[Value::Other, Value::DateTime(date())], &named), Value::Error);
}

#[test]
fn datetime_on_arguments_read_out_of_the_call() {
    let named = vec![
        NamedArg { name: "dateStyle".to_string(), text: Some("medium".to_string()) },
        NamedArg { name: "era".to_string(), text: None },
    ];
    assert_eq!(datetime_with(&[Value::DateTime(date())], &named), restyled(Some(Date::Medium), None));
    assert_eq!(datetime_with(&[], &named), Value::Error);
    let named = vec![NamedArg { name: "dateStyle".to_string(), text: None }];
    assert_eq!(datetime_with(&[Value::DateTime(date())], &named), Value::Error);
}

#[test]
fn the_restyled_value_renders_in_its_new_style() {
    let mut named = FluentArgs::new();
    named.set("dateStyle", "full");
    match DATETIME(&[Value::DateTime(date())], &named) {
        Value::DateTime(value) => {
            assert_eq!(value.as_string_threadsafe("en-US"), "Thursday, November 9, 1989");
        }
        _ => panic!("a date-time with a known style gives a date-time"),
    }
}

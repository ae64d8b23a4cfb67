use fluent_datetime::cache::FormatterCache;
use fluent_datetime::datetime::DateValue;
use fluent_datetime::formatter::ConstructionError;
use fluent_datetime::length::{Bag, Date, Time};
use fluent_datetime::FluentDateTimeOptions;
use jiff::tz::TimeZone;

fn options(date: Option<Date>, time: Option<Time>) -> FluentDateTimeOptions {
    FluentDateTimeOptions::from_length(Bag { date, time })
}

#[test]
fn a_new_cache_is_empty() {
    let cache = FormatterCache::new();
    assert_eq!(cache.len(), 0);
    assert_eq!(cache.lookup("en-US", &FluentDateTimeOptions::default()), None);
}

#[test]
fn the_first_call_builds_and_the_second_finds() {
    let mut cache = FormatterCache::new();
    let key = options(Some(Date::Full), None);
    assert_eq!(cache.get_or_build("en-US", &key), Ok(0));
    assert_eq!(cache.len(), 1);
    assert_eq!(cache.get_or_build("en-US", &key), Ok(0));
    assert_eq!(cache.len(), 1);
    assert_eq!(cache.lookup("en-US", &key), Some(0));
}

#[test]
fn each_key_has_its_own_formatter() {
    let mut cache = FormatterCache::new();
    let full = options(Some(Date::Full), None);
    let short = options(Some(Date::Short), None);
    assert_eq!(cache.get_or_build("en-US", &full), Ok(0));
    assert_eq!(cache.get_or_build("fr-FR", &full), Ok(1));
    assert_eq!(cache.get_or_build("en-US", &short), Ok(2));
    assert_eq!(cache.get_or_build("fr-FR", &full), Ok(1));
    assert_eq!(cache.get_or_build("en-US", &full), Ok(0));
    assert_eq!(cache.len(), 3);
    let value = DateValue::try_new(1989, 11, 9, 23, 30, 0, 0).unwrap();
    let zone = TimeZone::UTC;
    assert_eq!(cache.get(0).render_with(&zone, &value), "Thursday, November 9, 1989");
    assert_eq!(cache.get(1).render_with(&zone, &value), "jeudi 9 novembre 1989");
    assert_eq!(cache.get(2).render_with(&zone, &value), "11/9/89");
}

#[test]
fn the_empty_bag_and_the_short_date_are_two_keys() {
    let mut cache = FormatterCache::new();
    assert_eq!(cache.get_or_build("en-US", &FluentDateTimeOptions::default()), Ok(0));
    assert_eq!(cache.get_or_build("en-US", &options(Some(Date::Short), None)), Ok(1));
    let value = DateValue::try_new(2020, 1, 30, 0, 0, 0, 0).unwrap();
    let zone = TimeZone::UTC;
    assert_eq!(cache.get(0).render_with(&zone, &value), "1/30/20");
    assert_eq!(cache.get(0).render_with(&zone, &value), cache.get(1).render_with(&zone, &value));
}

#[test]
fn a_failure_is_not_kept() {
    let mut cache = FormatterCache::new();
    let key = options(None, Some(Time::Short));
    assert_eq!(cache.get_or_build("en_US", &key), Err(ConstructionError::Language));
    assert_eq!(cache.len(), 0);
    assert_eq!(cache.lookup("en_US", &key), None);
    assert_eq!(cache.get_or_build("en_US", &key), Err(ConstructionError::Language));
    assert_eq!(cache.get_or_build("en-US", &key), Ok(0));
    assert_eq!(cache.len(), 1);
}

#[test]
fn a_cached_formatter_renders_the_same_text_every_time() {
    let mut cache = FormatterCache::new();
    let key = options(Some(Date::Medium), Some(Time::Short));
    let value = DateValue::try_new(1989, 11, 9, 23, 30, 0, 0).unwrap();
    let zone = TimeZone::UTC;
    let first = cache.get_or_build("fr-FR", &key).unwrap();
    let text = cache.get(first).render_with(&zone, &value);
    assert_eq!(text, "9 nov. 1989, 23:30");
    for _ in 0..5 {
        let again = cache.get_or_build("fr-FR", &key).unwrap();
        assert_eq!(again, first);
        assert_eq!(cache.get(again).render_with(&zone, &value), text);
    }
    let fresh = key.make_formatter("fr-FR").ok().unwrap();
    assert_eq!(fresh.render_with(&zone, &value), text);
}

#[test]
fn of_two_formatters_for_one_key_the_first_is_kept() {
    let mut cache = FormatterCache::new();
    let key = options(Some(Date::Long), None);
    assert_eq!(cache.lookup("en-US", &key), None);
    let first = key.make_formatter("en-US").ok().unwrap();
    let second = key.make_formatter("en-US").ok().unwrap();
    let other = key.make_formatter("fr-FR").ok().unwrap();
    assert_eq!(cache.insert_or_discard(first), 0);
    assert_eq!(cache.insert_or_discard(other), 1);
    assert_eq!(cache.insert_or_discard(second), 0);
    assert_eq!(cache.len(), 2);
    assert_eq!(cache.lookup("en-US", &key), Some(0));
    assert_eq!(cache.lookup("fr-FR", &key), Some(1));
    assert_eq!(cache.get_or_build("en-US", &key), Ok(0));
}

#[test]
fn many_losers_leave_one_entry() {
    let mut cache = FormatterCache::new();
    let key = options(None, Some(Time::Medium));
    let mut built = Vec::new();
    for _ in 0..8 {
        assert_eq!(cache.lookup("ja", &key), None);
        built.push(key.make_formatter("ja").ok().unwrap());
    }
    for formatter in built {
        assert_eq!(cache.insert_or_discard(formatter), 0);
    }
    assert_eq!(cache.len(), 1);
    assert_eq!(cache.lookup("ja", &key), Some(0));
}

#[test]
fn language_tags_are_keys_as_they_are_written() {
    let mut cache = FormatterCache::new();
    let key = FluentDateTimeOptions::default();
    assert_eq!(cache.get_or_build("en-US", &key), Ok(0));
    assert_eq!(cache.get_or_build("en-us", &key), Ok(1));
    assert_eq!(cache.lookup("en", &key), None);
    assert_eq!(cache.lookup("en-US", &key), Some(0));
}

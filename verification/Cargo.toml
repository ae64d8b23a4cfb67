[package]
name = "fluent-datetime"
version = "0.1.0"
edition = "2021"
publish = false

[dependencies]
fluent-bundle = "*"
icu_calendar = "2"
icu_datetime = "2"
icu_locale_core = "2"
icu_provider = "2"
icu_time = "2"
intl-memoizer = "*"
jiff = "0.2"
jiff-icu = "*"
unic-langid = "0.9"

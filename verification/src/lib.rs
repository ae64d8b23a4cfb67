//! Dates and times for Fluent translations, rendered by ICU4X.
//!
//! A [`FluentDateTime`] carries a naive date-time and the two style options
//! that say how it is shown. Rendering compiles the options to a field set,
//! finds or builds the formatter for the language in a
//! [`cache::FormatterCache`], and, where the field set asks for a zone,
//! attaches the time zone first.

pub mod args;
pub mod cache;
pub mod datetime;
pub mod fieldset;
pub mod formatter;
pub mod function;
pub mod length;
pub mod options;
pub mod value;
pub mod zone;

pub use function::DATETIME;
pub use options::FluentDateTimeOptions;
pub use value::FluentDateTime;

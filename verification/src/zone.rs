//! Attaching a time zone to a naive date-time.
//!
//! A wall-clock reading can name one instant, none (it falls into a gap that
//! the clocks skipped) or two (the clocks were set back and showed it
//! twice). The rule that picks the instant is the compatible one: a reading
//! in a gap is moved on by the length of the gap, and of two instants the
//! earlier is taken.

use jiff::civil::date;
use jiff::tz::{AmbiguousOffset, Offset, TimeZone};
use jiff::Zoned;
use vstd::prelude::*;

use crate::datetime::{DateTimeFields, DateValue};

verus! {

/// Jiff's `TimeZone`: the rules of one time zone.
#[verifier::external_type_specification]
#[verifier::external_body]
pub struct ExTimeZone(TimeZone);

/// Jiff's `Zoned`: an instant together with the time zone it is shown in.
#[verifier::external_type_specification]
#[verifier::external_body]
pub struct ExZoned(Zoned);

/// Jiff's `Error`.
#[verifier::external_type_specification]
#[verifier::external_body]
pub struct ExJiffError(jiff::Error);

/// What a time zone says of a wall-clock reading. Offsets are in seconds
/// east of UTC: the reading minus the offset is the instant in UTC.
#[derive(Debug, Clone, Copy, PartialEq, Eq, Structural)]
pub enum LocalOffset {
    /// The reading names one instant.
    Unambiguous {
        /// The offset in force at the reading.
        offset: i32,
    },
    /// The reading was skipped: the clocks jumped over it.
    Gap {
        /// The offset in force before the jump.
        before: i32,
        /// The offset in force after the jump.
        after: i32,
    },
    /// The reading was shown twice: the clocks were set back over it.
    Fold {
        /// The offset in force before the clocks were set back.
        before: i32,
        /// The offset in force after the clocks were set back.
        after: i32,
    },
}

/// The instant, in seconds of UTC, that a reading names under an offset.
pub open spec fn instant_at(reading: int, offset: int) -> int {
    reading - offset
}

/// What the clocks show at an instant under an offset.
pub open spec fn reading_at(instant: int, offset: int) -> int {
    instant + offset
}

impl LocalOffset {
    /// The offset under which the compatible rule reads the wall clock: the
    /// only one where there is one, else the one in force before the change.
    pub open spec fn compatible(self) -> int {
        match self {
            LocalOffset::Unambiguous { offset } => offset as int,
            LocalOffset::Gap { before, .. } => before as int,
            LocalOffset::Fold { before, .. } => before as int,
        }
    }

    /// The offset under which the compatible rule reads the wall clock.
    pub fn compatible_offset(&self) -> (offset: i32)
        ensures
            offset == self.compatible(),
    {
        match self {
            LocalOffset::Unambiguous { offset } => *offset,
            LocalOffset::Gap { before, .. } => *before,
            LocalOffset::Fold { before, .. } => *before,
        }
    }
}

/// Of the two instants that a reading in a fold names, the compatible rule
/// takes the earlier one.
pub proof fn lemma_fold_takes_earlier_instant(reading: int, before: i32, after: i32)
    requires
        before > after,
    ensures
        ({
            let chosen = instant_at(reading, (LocalOffset::Fold { before, after }).compatible());
            &&& chosen == instant_at(reading, before as int)
            &&& chosen < instant_at(reading, after as int)
            &&& reading_at(chosen, before as int) == reading
        }),
{
}

/// A reading in a gap is moved on by the length of the gap: at the instant
/// that the compatible rule takes, the clocks, now under the offset in force
/// after the jump, show the reading plus what the jump skipped.
pub proof fn lemma_gap_moves_on_by_gap_length(reading: int, before: i32, after: i32)
    requires
        before < after,
    ensures
        ({
            let chosen = instant_at(reading, (LocalOffset::Gap { before, after }).compatible());
            &&& reading_at(chosen, after as int) == reading + (after - before)
            &&& reading_at(chosen, after as int) > reading
        }),
{
}

/// A reading that names one instant keeps it, and the clocks show the
/// reading there.
pub proof fn lemma_unambiguous_keeps_reading(reading: int, offset: i32)
    ensures
        ({
            let chosen = instant_at(reading, (LocalOffset::Unambiguous { offset }).compatible());
            reading_at(chosen, offset as int) == reading
        }),
{
}

/// What a time zone says of a wall-clock reading: the result of Jiff's
/// `TimeZone::to_ambiguous_timestamp`, read through `offset`.
pub uninterp spec fn zone_offsets(zone: TimeZone, reading: DateTimeFields) -> LocalOffset;

/// The zoned date-time of the instant that a wall-clock reading names under
/// an offset, shown in a time zone: the result of Jiff's
/// `Offset::to_timestamp` for the offset of that many seconds, handed to
/// `Timestamp::to_zoned`.
pub uninterp spec fn zoned_at(zone: TimeZone, reading: DateTimeFields, offset: int) -> Result<
    Zoned,
    jiff::Error,
>;

/// `TimeZone::to_ambiguous_timestamp`: whether the zone's rules give the
/// reading one offset, or say that it falls into a gap or a fold, with the
/// offsets on both sides. Every `DateValue` is a date that Jiff's civil
/// date-time can hold, but for a leap second, which the reading must not
/// have.
#[verifier::external_body]
pub(crate) fn local_offsets(zone: &TimeZone, reading: &DateValue) -> (offsets: LocalOffset)
    requires
        !reading@.is_leap_second(),
    ensures
        offsets == zone_offsets(*zone, reading@),
{
    let day = date(reading.year as i16, reading.month as i8, reading.day as i8);
    let (hour, minute, second) = (reading.hour as i8, reading.minute as i8, reading.second as i8);
    let civil = day.at(hour, minute, second, reading.nanosecond as i32);
    match zone.to_ambiguous_timestamp(civil).offset() {
        AmbiguousOffset::Unambiguous { offset } => LocalOffset::Unambiguous { offset: offset.seconds() },
        AmbiguousOffset::Gap { before, after } => {
            LocalOffset::Gap { before: before.seconds(), after: after.seconds() }
        },
        AmbiguousOffset::Fold { before, after } => {
            LocalOffset::Fold { before: before.seconds(), after: after.seconds() }
        },
    }
}

/// `Offset::to_timestamp`, then `Timestamp::to_zoned`: the instant that the
/// reading names under the offset, shown in the zone. Fails where the offset
/// or the instant is outside what Jiff can hold. The reading must hold no
/// leap second.
#[verifier::external_body]
pub(crate) fn zoned_at_offset(zone: &TimeZone, reading: &DateValue, offset: i32) -> (outcome: Result<
    Zoned,
    jiff::Error,
>)
    requires
        !reading@.is_leap_second(),
    ensures
        outcome == zoned_at(*zone, reading@, offset as int),
{
    let day = date(reading.year as i16, reading.month as i8, reading.day as i8);
    let (hour, minute, second) = (reading.hour as i8, reading.minute as i8, reading.second as i8);
    let civil = day.at(hour, minute, second, reading.nanosecond as i32);
    let instant = Offset::from_seconds(offset)?.to_timestamp(civil)?;
    Ok(instant.to_zoned(zone.clone()))
}

/// `TimeZone::system`: the time zone that the system is set to, or Jiff's
/// unknown zone where none can be found.
#[verifier::external_body]
pub(crate) fn system_zone() -> (zone: TimeZone) {
    TimeZone::system()
}

/// The time zone of the system, found when it is first asked for and kept
/// from then on.
pub struct SystemZone {
    zone: Option<TimeZone>,
}

impl SystemZone {
    /// The zone that was found, if it was asked for yet.
    pub closed spec fn resolved(&self) -> Option<TimeZone> {
        self.zone
    }

    /// A state in which the system's zone was not asked for yet.
    pub fn new() -> (state: SystemZone)
        ensures
            state.resolved() is None,
    {
        SystemZone { zone: None }
    }

    /// A state that holds the given zone in place of the system's.
    pub fn with_zone(zone: TimeZone) -> (state: SystemZone)
        ensures
            state.resolved() == Some(zone),
    {
        SystemZone { zone: Some(zone) }
    }

    /// Whether the zone was found already.
    pub fn is_resolved(&self) -> (found: bool)
        ensures
            found == self.resolved() is Some,
    {
        self.zone.is_some()
    }

    /// Finds the system's zone unless it was found before. A zone that was
    /// found is never replaced.
    pub fn resolve(&mut self)
        ensures
            final(self).resolved() is Some,
            old(self).resolved() is Some ==> final(self).resolved() == old(self).resolved(),
    {
        if self.zone.is_none() {
            self.zone = Some(system_zone());
        }
    }

    /// The zone that was found, if it was asked for yet.
    pub fn zone(&self) -> (zone: Option<&TimeZone>)
        ensures
            match zone {
                Some(found) => self.resolved() == Some(*found),
                None => self.resolved() is None,
            },
    {
        self.zone.as_ref()
    }
}

/// The instant lies outside the range of instants that a zoned date-time can
/// hold.
#[derive(Debug, Clone, Copy, PartialEq, Eq, Structural)]
pub struct ZoneError;

/// The zoned date-time that a naive date-time stands for in a time zone.
///
/// A leap second is first replaced by the last nanosecond before it; the
/// zone then says which offsets the reading can have, and the compatible
/// rule picks one.
pub open spec fn attached(zone: TimeZone, value: DateTimeFields) -> Result<Zoned, ZoneError> {
    let reading = value.clamped();
    match zoned_at(zone, reading, zone_offsets(zone, reading).compatible()) {
        Ok(zoned) => Ok(zoned),
        Err(_) => Err(ZoneError),
    }
}

/// What becomes of the zoned date-time that Jiff returned, or of its error.
pub fn attached_outcome(outcome: Result<Zoned, jiff::Error>) -> (mapped: Result<Zoned, ZoneError>)
    ensures
        mapped == (match outcome {
            Ok(zoned) => Ok::<Zoned, ZoneError>(zoned),
            Err(_) => Err(ZoneError),
        }),
{
    match outcome {
        Ok(zoned) => Ok(zoned),
        Err(_) => Err(ZoneError),
    }
}

/// Attaches a time zone to a naive date-time.
///
/// A leap second is clamped to the last nanosecond of second 59; a reading
/// in a gap is moved on by the length of the gap; of the two instants of a
/// reading in a fold the earlier is taken. Fails only where the instant is
/// outside the range that a zoned date-time can hold.
pub fn attach_zone(zone: &TimeZone, value: &DateValue) -> (outcome: Result<Zoned, ZoneError>)
    ensures
        outcome == attached(*zone, value@),
{
    let reading = value.clamp_leap_second();
    let offsets = local_offsets(zone, &reading);
    let offset = offsets.compatible_offset();
    attached_outcome(zoned_at_offset(zone, &reading, offset))
}

} // verus!

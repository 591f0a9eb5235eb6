//! The day's schedule for a place on earth, with the instants of the solar
//! events taken from the `sunrise` crate.

use chrono::DateTime;
use sunrise::{Coordinates, DawnType, SolarDay, SolarEvent};
use vstd::prelude::*;
use crate::schedule::{
    assemble_schedule, day_in_range, day_of, is_schedule_of, night_starts_at, sorted_by_time,
    ScheduleEntry, SolarEvents, MAX_DAY, MIN_DAY, SECONDS_PER_DAY,
};

verus! {

/// A validated pair of latitude and longitude, as `sunrise` holds it. Nothing
/// of its contents is visible here: it is handed on to the computation.
#[verifier::external_type_specification]
#[verifier::external_body]
pub struct ExCoordinates(sunrise::Coordinates);

/// Why no schedule was built.
#[derive(Clone, Copy, Debug, PartialEq, Eq, Structural)]
pub enum ScheduleError {
    /// The date does not have a four-digit year.
    DateOutOfRange,
}

impl ScheduleError {
    /// What went wrong, in words.
    pub fn message(&self) -> (text: &'static str)
        ensures
            text@ == "the date does not have a four-digit year"@,
    {
        match self {
            ScheduleError::DateOutOfRange => "the date does not have a four-digit year",
        }
    }
}

/// Calls `sunrise::SolarDay::new` for the date that starts at `midnight`, and
/// `SolarDay::event_time` for each of the eight events, and gives their
/// instants in seconds. Nothing is claimed of the instants. The bound keeps
/// `midnight` within the years 1 to 9999, which
/// `chrono::DateTime::from_timestamp` accepts, and so the date away from the
/// ends of the calendar, where `event_time` panics.
#[verifier::external_body]
fn solar_events(coordinates: &Coordinates, midnight: i64) -> (events: SolarEvents)
    requires
        MIN_DAY * 86_400 <= midnight <= MAX_DAY * 86_400,
{
    let date = DateTime::from_timestamp(midnight, 0).unwrap().date_naive();
    let day = SolarDay::new(*coordinates, date);
    SolarEvents {
        astronomical_dawn: day.event_time(SolarEvent::Dawn(DawnType::Astronomical)).timestamp(),
        nautical_dawn: day.event_time(SolarEvent::Dawn(DawnType::Nautical)).timestamp(),
        civil_dawn: day.event_time(SolarEvent::Dawn(DawnType::Civil)).timestamp(),
        sunrise: day.event_time(SolarEvent::Sunrise).timestamp(),
        sunset: day.event_time(SolarEvent::Sunset).timestamp(),
        civil_dusk: day.event_time(SolarEvent::Dusk(DawnType::Civil)).timestamp(),
        nautical_dusk: day.event_time(SolarEvent::Dusk(DawnType::Nautical)).timestamp(),
        astronomical_dusk: day.event_time(SolarEvent::Dusk(DawnType::Astronomical)).timestamp(),
    }
}

/// `s` is the schedule of the day for some instants of the eight events.
pub open spec fn is_day_schedule(s: Seq<ScheduleEntry>, day: int) -> bool {
    exists|events: SolarEvents| #[trigger] is_schedule_of(s, events, day)
}

/// Builds the schedule of a day at a place: the eight solar events that
/// `sunrise` computes and the `Night` entry at the start of the next day,
/// sorted by time. A date without a four-digit year is refused.
pub fn build(coordinates: &Coordinates, day: i64) -> (built: Result<
    Vec<ScheduleEntry>,
    ScheduleError,
>)
    ensures
        day_in_range(day as int) <==> built is Ok,
        built matches Ok(schedule) ==> is_day_schedule(schedule@, day as int),
        built matches Ok(schedule) ==> schedule@.len() == 9 && sorted_by_time(schedule@)
            && night_starts_at(schedule@, (day + 1) * 86_400),
        built matches Err(error) ==> error == ScheduleError::DateOutOfRange,
{
    if day < MIN_DAY || day > MAX_DAY {
        return Err(ScheduleError::DateOutOfRange);
    }
    let events = solar_events(coordinates, day * SECONDS_PER_DAY);
    let schedule = assemble_schedule(&events, day);
    assert(is_schedule_of(schedule@, events, day as int));
    Ok(schedule)
}

/// Builds the schedule of the calendar date that `now` falls on.
pub fn schedule_at(coordinates: &Coordinates, now: i64) -> (built: Result<
    Vec<ScheduleEntry>,
    ScheduleError,
>)
    ensures
        day_in_range(now as int / 86_400) <==> built is Ok,
        built matches Ok(schedule) ==> is_day_schedule(schedule@, now as int / 86_400),
        built matches Ok(schedule) ==> schedule@.len() == 9 && sorted_by_time(schedule@)
            && night_starts_at(schedule@, (now as int / 86_400 + 1) * 86_400),
        built matches Err(error) ==> error == ScheduleError::DateOutOfRange,
{
    build(coordinates, day_of(now))
}

} // verus!

//! The day's schedule of solar events and the phase that is active at an instant.
//!
//! Instants are seconds since 1970-01-01T00:00:00 UTC; a calendar date is the
//! number of whole days since that instant.

use vstd::prelude::*;
use crate::phase::SolarPhase;

verus! {

/// The length of a calendar day in seconds.
pub const SECONDS_PER_DAY: i64 = 86_400;

/// The day number of 0001-01-01.
pub const MIN_DAY: i64 = -719_162;

/// The day number of 9999-12-31.
pub const MAX_DAY: i64 = 2_932_896;

/// The dates a schedule can be built for: those with a four-digit year.
pub open spec fn day_in_range(day: int) -> bool {
    MIN_DAY <= day <= MAX_DAY
}

/// The start of the day after `day` is an instant that an `i64` can hold.
pub open spec fn next_day_fits(day: int) -> bool {
    i64::MIN <= (day + 1) * 86_400 <= i64::MAX
}

/// The UTC calendar date that an instant falls on.
pub fn day_of(now: i64) -> (day: i64)
    ensures
        day == now as int / 86_400,
        day * 86_400 <= now < (day + 1) * 86_400,
{
    if now >= 0 {
        now / SECONDS_PER_DAY
    } else {
        let back: i64 = -(now + 1);
        -(back / SECONDS_PER_DAY) - 1
    }
}

/// One boundary of the day: from `timestamp` on, `phase` is active.
#[derive(Clone, Copy, Debug, PartialEq, Eq, Structural)]
pub struct ScheduleEntry {
    pub phase: SolarPhase,
    pub timestamp: i64,
}

/// The instants of the eight solar events of one day.
#[derive(Clone, Copy, Debug, PartialEq, Eq, Structural)]
pub struct SolarEvents {
    pub astronomical_dawn: i64,
    pub nautical_dawn: i64,
    pub civil_dawn: i64,
    pub sunrise: i64,
    pub sunset: i64,
    pub civil_dusk: i64,
    pub nautical_dusk: i64,
    pub astronomical_dusk: i64,
}

/// The instant at which a phase starts on the given day. `Day` starts at
/// sunset; `Night` stands for the start of the next calendar day.
pub open spec fn event_time(events: SolarEvents, day: int, phase: SolarPhase) -> int {
    match phase {
        SolarPhase::AstronomicalDawn => events.astronomical_dawn as int,
        SolarPhase::NauticalDawn => events.nautical_dawn as int,
        SolarPhase::CivilDawn => events.civil_dawn as int,
        SolarPhase::Sunrise => events.sunrise as int,
        SolarPhase::Day => events.sunset as int,
        SolarPhase::CivilDusk => events.civil_dusk as int,
        SolarPhase::NauticalDusk => events.nautical_dusk as int,
        SolarPhase::AstronomicalDusk => events.astronomical_dusk as int,
        SolarPhase::Night => (day + 1) * 86_400,
    }
}

/// The order in which the day's entries are listed before they are sorted:
/// the eight events from astronomical dawn to astronomical dusk, then the
/// `Night` entry.
pub open spec fn listing_rank(phase: SolarPhase) -> int {
    if phase == SolarPhase::Night {
        8
    } else {
        phase.ordinal() - 1
    }
}

/// No entry is earlier than one that stands before it.
pub open spec fn sorted_by_time(s: Seq<ScheduleEntry>) -> bool {
    forall|i: int, j: int| 0 <= i < j < s.len() ==> s[i].timestamp <= s[j].timestamp
}

/// Entries with one timestamp stand in the order of the listing.
pub open spec fn ties_keep_listing_order(s: Seq<ScheduleEntry>) -> bool {
    forall|i: int, j: int|
        0 <= i < j < s.len() && s[i].timestamp == s[j].timestamp ==> listing_rank(s[i].phase)
            < listing_rank(s[j].phase)
}

/// Some entry of `s` is that of `phase`.
pub open spec fn holds_phase(s: Seq<ScheduleEntry>, phase: SolarPhase) -> bool {
    exists|i: int| 0 <= i < s.len() && (#[trigger] s[i]).phase == phase
}

/// `s` is the schedule of the day: nine entries, one for each phase at the
/// instant of its event, in ascending order of time.
pub open spec fn is_schedule_of(s: Seq<ScheduleEntry>, events: SolarEvents, day: int) -> bool {
    &&& s.len() == 9
    &&& sorted_by_time(s)
    &&& ties_keep_listing_order(s)
    &&& forall|i: int|
        0 <= i < s.len() ==> (#[trigger] s[i]).timestamp == event_time(events, day, s[i].phase)
    &&& forall|phase: SolarPhase| #[trigger] holds_phase(s, phase)
}

/// The schedule has a `Night` entry, and each one it has stands at `instant`.
pub open spec fn night_starts_at(s: Seq<ScheduleEntry>, instant: int) -> bool {
    &&& holds_phase(s, SolarPhase::Night)
    &&& forall|i: int|
        0 <= i < s.len() && (#[trigger] s[i]).phase == SolarPhase::Night ==> s[i].timestamp
            == instant
}

/// A day's schedule has nine entries in ascending order of time, and its
/// `Night` entry stands at the start of the next day.
pub proof fn schedule_shape(s: Seq<ScheduleEntry>, events: SolarEvents, day: int)
    requires
        is_schedule_of(s, events, day),
    ensures
        s.len() == 9,
        sorted_by_time(s),
        night_starts_at(s, (day + 1) * 86_400),
{
}

/// `is_schedule_of`, kept folded while the proof below counts positions.
#[verifier::opaque]
spec fn folded_schedule(s: Seq<ScheduleEntry>, events: SolarEvents, day: int) -> bool {
    is_schedule_of(s, events, day)
}

/// Where an entry of one schedule of the day stands in another.
proof fn entry_position(
    a: Seq<ScheduleEntry>,
    b: Seq<ScheduleEntry>,
    events: SolarEvents,
    day: int,
    i: int,
) -> (j: int)
    requires
        folded_schedule(a, events, day),
        folded_schedule(b, events, day),
        0 <= i < 9,
    ensures
        a.len() == 9,
        b.len() == 9,
        0 <= j < 9,
        b[j] == a[i],
{
    reveal(folded_schedule);
    assert(holds_phase(b, a[i].phase));
    choose|j: int| 0 <= j < b.len() && (#[trigger] b[j]).phase == a[i].phase
}

/// Two entries stand in the same order in every schedule of the day.
proof fn positions_keep_order(
    a: Seq<ScheduleEntry>,
    b: Seq<ScheduleEntry>,
    events: SolarEvents,
    day: int,
    i: int,
    j: int,
    l: int,
)
    requires
        folded_schedule(a, events, day),
        folded_schedule(b, events, day),
        0 <= i < 8,
        0 <= j < 9,
        0 <= l < 9,
        b[j] == a[i],
        b[l] == a[i + 1],
    ensures
        j < l,
{
    reveal(folded_schedule);
    assert(a[i].timestamp <= a[i + 1].timestamp);
    if l < j {
        assert(b[l].timestamp <= b[j].timestamp);
    }
}

/// Sequences of nine entries that agree at each position are equal.
proof fn equal_by_entries(a: Seq<ScheduleEntry>, b: Seq<ScheduleEntry>)
    requires
        a.len() == 9,
        b.len() == 9,
        a[0] == b[0],
        a[1] == b[1],
        a[2] == b[2],
        a[3] == b[3],
        a[4] == b[4],
        a[5] == b[5],
        a[6] == b[6],
        a[7] == b[7],
        a[8] == b[8],
    ensures
        a == b,
{
    assert(a =~= b);
}

/// Each entry of `a` stands in `b` at its own position.
proof fn folded_schedules_are_equal(
    a: Seq<ScheduleEntry>,
    b: Seq<ScheduleEntry>,
    events: SolarEvents,
    day: int,
)
    requires
        folded_schedule(a, events, day),
        folded_schedule(b, events, day),
    ensures
        a == b,
{
    let p0 = entry_position(a, b, events, day, 0);
    let p1 = entry_position(a, b, events, day, 1);
    let p2 = entry_position(a, b, events, day, 2);
    let p3 = entry_position(a, b, events, day, 3);
    let p4 = entry_position(a, b, events, day, 4);
    let p5 = entry_position(a, b, events, day, 5);
    let p6 = entry_position(a, b, events, day, 6);
    let p7 = entry_position(a, b, events, day, 7);
    let p8 = entry_position(a, b, events, day, 8);
    positions_keep_order(a, b, events, day, 0, p0, p1);
    positions_keep_order(a, b, events, day, 1, p1, p2);
    positions_keep_order(a, b, events, day, 2, p2, p3);
    positions_keep_order(a, b, events, day, 3, p3, p4);
    positions_keep_order(a, b, events, day, 4, p4, p5);
    positions_keep_order(a, b, events, day, 5, p5, p6);
    positions_keep_order(a, b, events, day, 6, p6, p7);
    positions_keep_order(a, b, events, day, 7, p7, p8);
    equal_by_entries(a, b);
}

/// The events and the day determine the schedule: two schedules of one day
/// from the same instants are equal.
pub proof fn schedule_is_determined(
    a: Seq<ScheduleEntry>,
    b: Seq<ScheduleEntry>,
    events: SolarEvents,
    day: int,
)
    requires
        is_schedule_of(a, events, day),
        is_schedule_of(b, events, day),
    ensures
        a == b,
{
    assert(folded_schedule(a, events, day) && folded_schedule(b, events, day)) by {
        reveal(folded_schedule);
    }
    folded_schedules_are_equal(a, b, events, day);
}

/// Puts `entry` behind the last entry that is not later than it.
fn insert_by_time(out: &mut Vec<ScheduleEntry>, entry: ScheduleEntry) -> (pos: usize)
    requires
        sorted_by_time(old(out)@),
    ensures
        pos <= old(out)@.len(),
        final(out)@ == old(out)@.insert(pos as int, entry),
        forall|i: int| 0 <= i < pos ==> old(out)@[i].timestamp <= entry.timestamp,
        forall|i: int| pos <= i < old(out)@.len() ==> old(out)@[i].timestamp > entry.timestamp,
{
    let ghost before = out@;
    let mut pos: usize = out.len();
    while pos > 0 && out[pos - 1].timestamp > entry.timestamp
        invariant
            pos <= out.len(),
            out@ == before,
            forall|i: int| pos <= i < before.len() ==> before[i].timestamp > entry.timestamp,
        decreases pos,
    {
        pos -= 1;
    }
    out.insert(pos, entry);
    pos
}

/// The entry of a phase on the given day.
fn entry_for(events: &SolarEvents, day: i64, phase: SolarPhase) -> (entry: ScheduleEntry)
    requires
        next_day_fits(day as int),
    ensures
        entry.phase == phase,
        entry.timestamp == event_time(*events, day as int, phase),
{
    let timestamp: i64 = match phase {
        SolarPhase::AstronomicalDawn => events.astronomical_dawn,
        SolarPhase::NauticalDawn => events.nautical_dawn,
        SolarPhase::CivilDawn => events.civil_dawn,
        SolarPhase::Sunrise => events.sunrise,
        SolarPhase::Day => events.sunset,
        SolarPhase::CivilDusk => events.civil_dusk,
        SolarPhase::NauticalDusk => events.nautical_dusk,
        SolarPhase::AstronomicalDusk => events.astronomical_dusk,
        SolarPhase::Night => (day + 1) * SECONDS_PER_DAY,
    };
    ScheduleEntry { phase, timestamp }
}

/// The phase listed at each rank.
fn phase_listed(rank: usize) -> (phase: SolarPhase)
    requires
        rank < 9,
    ensures
        listing_rank(phase) == rank,
{
    if rank == 0 {
        SolarPhase::AstronomicalDawn
    } else if rank == 1 {
        SolarPhase::NauticalDawn
    } else if rank == 2 {
        SolarPhase::CivilDawn
    } else if rank == 3 {
        SolarPhase::Sunrise
    } else if rank == 4 {
        SolarPhase::Day
    } else if rank == 5 {
        SolarPhase::CivilDusk
    } else if rank == 6 {
        SolarPhase::NauticalDusk
    } else if rank == 7 {
        SolarPhase::AstronomicalDusk
    } else {
        SolarPhase::Night
    }
}

/// Builds the schedule of a day from the instants of its eight solar events:
/// the events and the `Night` entry at the start of the next day, sorted by
/// time. Entries of one instant stay in the order dawn to dusk, `Night` last.
pub fn assemble_schedule(events: &SolarEvents, day: i64) -> (schedule: Vec<ScheduleEntry>)
    requires
        next_day_fits(day as int),
    ensures
        is_schedule_of(schedule@, *events, day as int),
{
    let mut out: Vec<ScheduleEntry> = Vec::new();
    let ghost mut place: Seq<int> = Seq::empty();
    let mut k: usize = 0;
    while k < 9
        invariant
            k <= 9,
            next_day_fits(day as int),
            out@.len() == k,
            place.len() == k,
            sorted_by_time(out@),
            ties_keep_listing_order(out@),
            forall|i: int|
                0 <= i < k ==> listing_rank((#[trigger] out@[i]).phase) < k && out@[i].timestamp
                    == event_time(*events, day as int, out@[i].phase),
            forall|r: int|
                0 <= r < k ==> 0 <= #[trigger] place[r] < k && listing_rank(out@[place[r]].phase)
                    == r,
        decreases 9 - k,
    {
        let entry = entry_for(events, day, phase_listed(k));
        let ghost before = out@;
        let ghost old_place = place;
        let pos = insert_by_time(&mut out, entry);
        proof {
            place = Seq::new(
                (k + 1) as nat,
                |r: int|
                    if r == k {
                        pos as int
                    } else if old_place[r] >= pos {
                        old_place[r] + 1
                    } else {
                        old_place[r]
                    },
            );
            assert forall|i: int| 0 <= i < k + 1 implies listing_rank(
                (#[trigger] out@[i]).phase,
            ) < k + 1 && out@[i].timestamp == event_time(*events, day as int, out@[i].phase) by {
                if i < pos {
                    assert(out@[i] == before[i]);
                } else if i > pos {
                    assert(out@[i] == before[i - 1]);
                }
            }
            assert forall|i: int, j: int| 0 <= i < j < out@.len() implies out@[i].timestamp
                <= out@[j].timestamp by {
                if i < pos {
                    assert(out@[i] == before[i]);
                } else if i > pos {
                    assert(out@[i] == before[i - 1]);
                }
                if j < pos {
                    assert(out@[j] == before[j]);
                } else if j > pos {
                    assert(out@[j] == before[j - 1]);
                }
            }
            assert forall|i: int, j: int|
                0 <= i < j < out@.len() && out@[i].timestamp
                    == out@[j].timestamp implies listing_rank(out@[i].phase) < listing_rank(
                out@[j].phase,
            ) by {
                if i < pos {
                    assert(out@[i] == before[i]);
                } else if i > pos {
                    assert(out@[i] == before[i - 1]);
                }
                if j < pos {
                    assert(out@[j] == before[j]);
                } else if j > pos {
                    assert(out@[j] == before[j - 1]);
                }
            }
            assert forall|r: int| 0 <= r < k + 1 implies 0 <= #[trigger] place[r] < k + 1
                && listing_rank(out@[place[r]].phase) == r by {
                if r < k {
                    if old_place[r] >= pos {
                        assert(out@[old_place[r] + 1] == before[old_place[r]]);
                    } else {
                        assert(out@[old_place[r]] == before[old_place[r]]);
                    }
                }
            }
        }
        k += 1;
    }
    proof {
        assert forall|phase: SolarPhase| #[trigger] holds_phase(out@, phase) by {
            let r = listing_rank(phase);
            assert(out@[place[r]].phase == phase);
        }
    }
    out
}

/// The position of the last entry that is not later than `now`, or -1 where
/// every entry is later.
pub open spec fn active_index(s: Seq<ScheduleEntry>, now: int) -> int
    decreases s.len(),
{
    if s.len() == 0 {
        -1
    } else if s.last().timestamp <= now {
        s.len() - 1
    } else {
        active_index(s.drop_last(), now)
    }
}

/// The phase that is active at `now`: that of the last entry that is not
/// later than `now`, and `Night` before the first.
pub open spec fn active_phase(s: Seq<ScheduleEntry>, now: int) -> SolarPhase {
    if active_index(s, now) < 0 {
        SolarPhase::Night
    } else {
        s[active_index(s, now)].phase
    }
}

/// `active_index` is the last position whose entry is not later than `now`.
pub proof fn active_index_is_last(s: Seq<ScheduleEntry>, now: int)
    ensures
        -1 <= active_index(s, now) < s.len(),
        active_index(s, now) >= 0 ==> s[active_index(s, now)].timestamp <= now,
        forall|j: int| active_index(s, now) < j < s.len() ==> (#[trigger] s[j]).timestamp > now,
    decreases s.len(),
{
    if s.len() > 0 && s.last().timestamp > now {
        let front = s.drop_last();
        active_index_is_last(front, now);
        assert forall|j: int| active_index(s, now) < j < s.len() implies (#[trigger] s[j]).timestamp
            > now by {
            if j < s.len() - 1 {
                assert(s[j] == front[j]);
            }
        }
        if active_index(s, now) >= 0 {
            assert(s[active_index(s, now)] == front[active_index(s, now)]);
        }
    }
}

/// Finds the phase that is active at `now`.
pub fn resolve_phase(now: i64, schedule: &Vec<ScheduleEntry>) -> (phase: SolarPhase)
    ensures
        phase == active_phase(schedule@, now as int),
{
    let mut i: usize = schedule.len();
    while i > 0
        invariant
            i <= schedule.len(),
            forall|j: int| i <= j < schedule@.len() ==> (#[trigger] schedule@[j]).timestamp > now,
        decreases i,
    {
        if schedule[i - 1].timestamp <= now {
            proof {
                active_index_is_last(schedule@, now as int);
            }
            return schedule[i - 1].phase;
        }
        i -= 1;
    }
    proof {
        active_index_is_last(schedule@, now as int);
    }
    SolarPhase::Night
}

/// Resolving at one instant gives one phase, and as the instant advances the
/// active entry never moves back in the schedule.
pub proof fn active_entry_never_moves_back(s: Seq<ScheduleEntry>, earlier: int, later: int)
    requires
        earlier <= later,
    ensures
        active_index(s, earlier) <= active_index(s, later),
        earlier == later ==> active_phase(s, earlier) == active_phase(s, later),
{
    active_index_is_last(s, earlier);
    active_index_is_last(s, later);
}

/// The schedule lists the phases in the course of the day: the eight events
/// from astronomical dawn to astronomical dusk, then the `Night` entry.
pub open spec fn in_course_of_day(s: Seq<ScheduleEntry>) -> bool {
    &&& s.len() == 9
    &&& forall|i: int| 0 <= i < 9 ==> listing_rank((#[trigger] s[i]).phase) == i
}

/// While the events come in the course of the day and the next day has not
/// begun, the active phase never steps back as the instant advances.
pub proof fn phase_never_steps_back_within_day(s: Seq<ScheduleEntry>, earlier: int, later: int)
    requires
        in_course_of_day(s),
        earlier <= later < s[8].timestamp,
    ensures
        active_phase(s, earlier).ordinal() <= active_phase(s, later).ordinal(),
{
    active_index_is_last(s, earlier);
    active_index_is_last(s, later);
    let a = active_index(s, earlier);
    let b = active_index(s, later);
    if a >= 0 {
        assert(listing_rank(s[a].phase) == a);
        assert(listing_rank(s[b].phase) == b);
    }
}

} // verus!

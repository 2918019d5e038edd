//! Race times: reading the announced wall-clock text and settling it to
//! one absolute instant in the community's time zone, US Eastern.

use vstd::prelude::*;
use crate::text::ascii_lowercase;
use chrono::{Datelike, LocalResult, NaiveDate, NaiveDateTime, TimeZone, Timelike};
use chrono_tz::US::Eastern;

verus! {

/// A date and time of day as a wall clock shows it, with no zone attached.
#[derive(Debug, Clone, Copy, PartialEq, Eq, Structural)]
pub struct CivilTime {
    pub year: i32,
    pub month: u32,
    pub day: u32,
    pub hour: u32,
    pub minute: u32,
    pub second: u32,
}

/// The absolute instants, in seconds since the Unix epoch, at which a zone's
/// wall clock shows a given civil time.
#[derive(Debug, Clone, Copy, PartialEq, Eq, Structural)]
pub enum LocalTimes {
    /// The clock never shows it: it falls in a gap, or is no calendar time.
    Missing,
    /// The clock shows it exactly once.
    Single(i64),
    /// The clock shows it twice, around a fold; the two instants in the
    /// order in which the zone reports them.
    Ambiguous(i64, i64),
}

impl LocalTimes {
    /// The instant to settle on: the only one, or the first of two.
    pub open spec fn first(self) -> Option<i64> {
        match self {
            LocalTimes::Missing => None,
            LocalTimes::Single(t) => Some(t),
            LocalTimes::Ambiguous(a, _) => Some(a),
        }
    }

    /// Whether `t` is one of the instants.
    pub open spec fn holds(self, t: i64) -> bool {
        match self {
            LocalTimes::Missing => false,
            LocalTimes::Single(a) => t == a,
            LocalTimes::Ambiguous(a, b) => t == a || t == b,
        }
    }

    pub fn earliest(&self) -> (chosen: Option<i64>)
        ensures
            chosen == self.first(),
    {
        match self {
            LocalTimes::Missing => None,
            LocalTimes::Single(t) => Some(*t),
            LocalTimes::Ambiguous(a, _) => Some(*a),
        }
    }

    pub fn is_ambiguous(&self) -> (twice: bool)
        ensures
            twice == (*self is Ambiguous),
    {
        match self {
            LocalTimes::Ambiguous(_, _) => true,
            _ => false,
        }
    }
}

/// What `chrono::NaiveDateTime::parse_from_str` makes of a text under a
/// format: the fields of the date and time it reads, or nothing where it
/// reports an error.
pub uninterp spec fn naive_datetime_parse(text: Seq<char>, format: Seq<char>) -> Option<CivilTime>;

/// What `chrono_tz::US::Eastern` answers to `from_local_datetime` for a
/// civil time.
pub uninterp spec fn eastern_local_times(civil: CivilTime) -> LocalTimes;

/// The civil time that the US Eastern wall clock shows at an instant, as
/// `chrono_tz::US::Eastern` computes it through `timestamp_opt`; nothing for
/// an instant outside the range that chrono represents.
pub uninterp spec fn eastern_wall_clock(timestamp: i64) -> Option<CivilTime>;

/// Calls `chrono::NaiveDateTime::parse_from_str` and copies the fields of the
/// value it returns. Nothing is claimed about which texts a format accepts:
/// the result is only given its name.
#[verifier::external_body]
fn naive_parse(text: &str, format: &str) -> (parsed: Option<CivilTime>)
    ensures
        parsed == naive_datetime_parse(text@, format@),
{
    match NaiveDateTime::parse_from_str(text, format) {
        Ok(dt) => Some(CivilTime {
            year: dt.year(),
            month: dt.month(),
            day: dt.day(),
            hour: dt.hour(),
            minute: dt.minute(),
            second: dt.second(),
        }),
        Err(_) => None,
    }
}

/// Builds the civil time with `chrono::NaiveDate::from_ymd_opt` and
/// `and_hms_opt`, and asks `chrono_tz::US::Eastern` for it through
/// `TimeZone::from_local_datetime`. Fields that form no calendar time give
/// `Missing`, as a gap does. Claimed beyond the name: at each instant handed
/// back the Eastern wall clock shows the civil time asked for, and of two
/// instants the first is not the later one (chrono documents the order as
/// earliest, latest).
#[verifier::external_body]
fn eastern_from_local(civil: &CivilTime) -> (times: LocalTimes)
    ensures
        times == eastern_local_times(*civil),
        forall|t: i64| times.holds(t) ==> eastern_wall_clock(t) == Some(*civil),
        times matches LocalTimes::Ambiguous(a, b) ==> a <= b,
{
    let date = match NaiveDate::from_ymd_opt(civil.year, civil.month, civil.day) {
        Some(date) => date,
        None => return LocalTimes::Missing,
    };
    let local = match date.and_hms_opt(civil.hour, civil.minute, civil.second) {
        Some(local) => local,
        None => return LocalTimes::Missing,
    };
    match Eastern.from_local_datetime(&local) {
        LocalResult::Single(a) => LocalTimes::Single(a.timestamp()),
        LocalResult::Ambiguous(a, b) => LocalTimes::Ambiguous(a.timestamp(), b.timestamp()),
        LocalResult::None => LocalTimes::Missing,
    }
}

/// Calls `TimeZone::timestamp_opt` on `chrono_tz::US::Eastern` with no
/// nanoseconds and copies the local fields of the value it returns.
#[verifier::external_body]
fn eastern_civil_at(timestamp: i64) -> (wall: Option<CivilTime>)
    ensures
        wall == eastern_wall_clock(timestamp),
{
    match Eastern.timestamp_opt(timestamp, 0).single() {
        Some(dt) => Some(CivilTime {
            year: dt.year(),
            month: dt.month(),
            day: dt.day(),
            hour: dt.hour(),
            minute: dt.minute(),
            second: dt.second(),
        }),
        None => None,
    }
}

/// An absolute instant together with what the US Eastern wall clock shows
/// at it.
#[derive(Debug, Clone, Copy, PartialEq, Eq)]
pub struct Instant {
    timestamp: i64,
    wall: CivilTime,
}

impl Instant {
    /// Seconds since the Unix epoch.
    pub closed spec fn epoch_seconds(&self) -> i64 {
        self.timestamp
    }

    /// The wall-clock reading carried along.
    pub closed spec fn wall_clock(&self) -> CivilTime {
        self.wall
    }

    /// The reading carried along is the one the zone shows at the instant.
    pub open spec fn wf(&self) -> bool {
        eastern_wall_clock(self.epoch_seconds()) == Some(self.wall_clock())
    }

    /// The instant at a Unix timestamp, where chrono can represent it.
    pub fn at(timestamp: i64) -> (instant: Option<Instant>)
        ensures
            match instant {
                Some(i) => i.epoch_seconds() == timestamp && i.wf(),
                None => eastern_wall_clock(timestamp) is None,
            },
    {
        match eastern_civil_at(timestamp) {
            Some(wall) => Some(Instant { timestamp, wall }),
            None => None,
        }
    }

    pub fn timestamp(&self) -> (t: i64)
        ensures
            t == self.epoch_seconds(),
    {
        self.timestamp
    }

    pub fn civil(&self) -> (wall: CivilTime)
        ensures
            wall == self.wall_clock(),
    {
        self.wall
    }

    pub fn year(&self) -> (y: i32)
        ensures
            y == self.wall_clock().year,
    {
        self.wall.year
    }

    pub fn month(&self) -> (m: u32)
        ensures
            m == self.wall_clock().month,
    {
        self.wall.month
    }

    pub fn day(&self) -> (d: u32)
        ensures
            d == self.wall_clock().day,
    {
        self.wall.day
    }

    pub fn hour(&self) -> (h: u32)
        ensures
            h == self.wall_clock().hour,
    {
        self.wall.hour
    }

    pub fn minute(&self) -> (m: u32)
        ensures
            m == self.wall_clock().minute,
    {
        self.wall.minute
    }

    pub fn second(&self) -> (s: u32)
        ensures
            s == self.wall_clock().second,
    {
        self.wall.second
    }
}

/// How an announced time was settled.
#[derive(Debug, Clone, Copy, PartialEq, Eq)]
pub enum TimeReading {
    /// The text does not follow the format.
    Malformed,
    /// The text names a wall-clock time that the zone skips.
    Gap,
    /// The wall-clock time occurs once.
    Unique(Instant),
    /// The wall-clock time occurs twice; the first instant is the one to use.
    Fold(Instant, Instant),
}

impl TimeReading {
    /// The reading that belongs to a parsed civil time and the instants the
    /// zone gave for it.
    pub open spec fn settles(self, civil: Option<CivilTime>, times: LocalTimes) -> bool {
        match civil {
            None => self is Malformed,
            Some(c) => match times {
                LocalTimes::Missing => self is Gap,
                LocalTimes::Single(t) => {
                    &&& self matches TimeReading::Unique(i)
                    &&& i.epoch_seconds() == t
                    &&& i.wall_clock() == c
                },
                LocalTimes::Ambiguous(a, b) => {
                    &&& self matches TimeReading::Fold(i, j)
                    &&& i.epoch_seconds() == a
                    &&& i.wall_clock() == c
                    &&& j.epoch_seconds() == b
                    &&& j.wall_clock() == c
                },
            },
        }
    }

    /// Every instant in the reading carries the zone's own wall-clock
    /// reading.
    pub open spec fn wf(self) -> bool {
        match self {
            TimeReading::Unique(i) => i.wf(),
            TimeReading::Fold(i, j) => i.wf() && j.wf(),
            _ => true,
        }
    }

    /// The instant a race is scheduled at, if the reading has one.
    pub open spec fn chosen(self) -> Option<Instant> {
        match self {
            TimeReading::Unique(i) => Some(i),
            TimeReading::Fold(i, _) => Some(i),
            _ => None,
        }
    }

    /// Puts a reading together from a parsed civil time and the instants at
    /// which the zone shows it.
    pub fn settle(civil: Option<CivilTime>, times: LocalTimes) -> (reading: TimeReading)
        ensures
            reading.settles(civil, times),
    {
        match civil {
            None => TimeReading::Malformed,
            Some(wall) => match times {
                LocalTimes::Missing => TimeReading::Gap,
                LocalTimes::Single(t) => TimeReading::Unique(Instant { timestamp: t, wall }),
                LocalTimes::Ambiguous(a, b) => TimeReading::Fold(
                    Instant { timestamp: a, wall },
                    Instant { timestamp: b, wall },
                ),
            },
        }
    }

    pub fn instant(&self) -> (chosen: Option<Instant>)
        ensures
            chosen == self.chosen(),
    {
        match self {
            TimeReading::Unique(i) => Some(*i),
            TimeReading::Fold(i, _) => Some(*i),
            _ => None,
        }
    }
}

/// The civil time that an announced text denotes: the text in lower case,
/// read as month/day/year, then hour and minute on the 12-hour clock with
/// `am` or `pm`.
pub open spec fn civil_reading(text: Seq<char>) -> Option<CivilTime> {
    naive_datetime_parse(ascii_lowercase(text), "%m/%d/%Y %I:%M%P"@)
}

/// The instants at which the Eastern wall clock shows the civil time that a
/// text denotes.
pub open spec fn announced_times(text: Seq<char>) -> LocalTimes {
    match civil_reading(text) {
        Some(c) => eastern_local_times(c),
        None => LocalTimes::Missing,
    }
}

/// Reads an announced race time and settles it in US Eastern time, telling
/// apart the ways in which that can go.
pub fn read_time(time_str: &str) -> (reading: TimeReading)
    ensures
        reading.settles(civil_reading(time_str@), announced_times(time_str@)),
        reading.wf(),
        reading matches TimeReading::Fold(i, j) ==> i.epoch_seconds() <= j.epoch_seconds(),
{
    let normalized = time_str.to_ascii_lowercase();
    match naive_parse(normalized.as_str(), "%m/%d/%Y %I:%M%P") {
        None => TimeReading::settle(None, LocalTimes::Missing),
        Some(civil) => {
            let times = eastern_from_local(&civil);
            let reading = TimeReading::settle(Some(civil), times);
            proof {
                match times {
                    LocalTimes::Single(t) => {
                        assert(times.holds(t));
                    },
                    LocalTimes::Ambiguous(a, b) => {
                        assert(times.holds(a));
                        assert(times.holds(b));
                    },
                    LocalTimes::Missing => {},
                }
            }
            reading
        },
    }
}

/// Reads an announced race time. A wall-clock time that occurs once gives
/// that instant; one that occurs twice gives the first of the two; one that
/// the zone skips, or a text that does not follow the format, gives nothing.
/// At the instant handed back the Eastern wall clock shows exactly the fields
/// that were read from the text.
pub fn parse_time(time_str: &str) -> (parsed: Option<Instant>)
    ensures
        match parsed {
            Some(i) => {
                &&& civil_reading(time_str@) == Some(i.wall_clock())
                &&& announced_times(time_str@).first() == Some(i.epoch_seconds())
                &&& eastern_wall_clock(i.epoch_seconds()) == civil_reading(time_str@)
            },
            None => announced_times(time_str@) is Missing,
        },
{
    read_time(time_str).instant()
}

} // verus!

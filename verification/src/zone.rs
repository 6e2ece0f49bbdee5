//! Local days: which day it is for a user, and when a day's entry may be
//! sealed. The time zones are those of the IANA database, by name.

use crate::entry::{CalendarDate, Timestamp};
use chrono::{DateTime, Datelike, Timelike, Utc};
use chrono_tz::Tz;
use vstd::prelude::*;

verus! {

/// Seconds of a day.
pub const DAY_SECS: i64 = 86_400;

/// The earliest instant that the calendar computations take.
pub const MIN_TIMESTAMP: i64 = -8_000_000_000_000;

/// The latest instant that the calendar computations take.
pub const MAX_TIMESTAMP: i64 = 8_000_000_000_000;

/// The instant lies within what the calendar computations take: some 250,000
/// years to either side of 1970.
pub open spec fn in_range(instant: Timestamp) -> bool {
    MIN_TIMESTAMP <= instant <= MAX_TIMESTAMP
}

/// Whether `Tz::from_str` knows a time zone of this name.
pub uninterp spec fn tz_known(name: Seq<char>) -> bool;

/// The local day that `DateTime::date_naive` gives for the instant `utc` in
/// the zone `name`.
pub uninterp spec fn tz_local_date(name: Seq<char>, utc: Timestamp) -> CalendarDate;

/// The instant that `Timelike::with_hour` gives for the instant `utc` in the
/// zone `name`: the same local day and time but for the hour, where that local
/// time exists once.
pub uninterp spec fn tz_with_hour(name: Seq<char>, utc: Timestamp, hour: u32) -> Option<
    Timestamp,
>;

/// The instant that `Timelike::with_minute` gives for the instant `utc` in the
/// zone `name`.
pub uninterp spec fn tz_with_minute(name: Seq<char>, utc: Timestamp, minute: u32) -> Option<
    Timestamp,
>;

/// The instant that `Timelike::with_second` gives for the instant `utc` in the
/// zone `name`.
pub uninterp spec fn tz_with_second(name: Seq<char>, utc: Timestamp, second: u32) -> Option<
    Timestamp,
>;

/// Calls `Tz::from_str`, which looks the name up in the table of the IANA
/// zones. The contract claims that the answer depends on the name alone.
#[verifier::external_body]
fn zone_is_known(name: &str) -> (known: bool)
    ensures
        known == tz_known(name@),
{
    name.parse::<Tz>().is_ok()
}

/// Calls `Tz::name` on `Tz::UTC`. The contract claims that the name is `UTC`
/// and that `Tz::from_str` knows it.
#[verifier::external_body]
fn utc_zone() -> (name: &'static str)
    ensures
        name@ == "UTC"@,
        tz_known(name@),
{
    Tz::UTC.name()
}

/// Calls `Utc::now` and `DateTime::timestamp`. The contract claims only that
/// the clock does not read before 1970: else `Utc::now` does not return.
#[verifier::external_body]
pub(crate) fn utc_now() -> (now: Timestamp)
    ensures
        0 <= now,
{
    Utc::now().timestamp()
}

/// Calls `DateTime::date_naive` on the instant, seen in the zone. The contract
/// claims that the day depends on the zone and the instant alone.
#[verifier::external_body]
fn zone_local_date(name: &str, utc: Timestamp) -> (date: CalendarDate)
    requires
        tz_known(name@),
        in_range(utc),
    ensures
        date == tz_local_date(name@, utc),
{
    let zone: Tz = name.parse().unwrap();
    let day = DateTime::from_timestamp(utc, 0).unwrap().with_timezone(&zone).date_naive();
    CalendarDate { year: day.year(), month: day.month() as u8, day: day.day() as u8 }
}

/// Calls `Timelike::with_hour` on the instant, seen in the zone. The contract
/// claims that the result depends on zone, instant and hour alone.
#[verifier::external_body]
fn zone_with_hour(name: &str, utc: Timestamp, hour: u32) -> (r: Option<Timestamp>)
    requires
        tz_known(name@),
        in_range(utc),
    ensures
        r == tz_with_hour(name@, utc, hour),
{
    let zone: Tz = name.parse().unwrap();
    let local = DateTime::from_timestamp(utc, 0).unwrap().with_timezone(&zone);
    local.with_hour(hour).map(|set| set.timestamp())
}

/// Calls `Timelike::with_minute` on the instant, seen in the zone. The
/// contract claims that the result depends on zone, instant and minute alone.
#[verifier::external_body]
fn zone_with_minute(name: &str, utc: Timestamp, minute: u32) -> (r: Option<Timestamp>)
    requires
        tz_known(name@),
        in_range(utc),
    ensures
        r == tz_with_minute(name@, utc, minute),
{
    let zone: Tz = name.parse().unwrap();
    let local = DateTime::from_timestamp(utc, 0).unwrap().with_timezone(&zone);
    local.with_minute(minute).map(|set| set.timestamp())
}

/// Calls `Timelike::with_second` on the instant, seen in the zone. The
/// contract claims that the result depends on zone, instant and second alone.
#[verifier::external_body]
fn zone_with_second(name: &str, utc: Timestamp, second: u32) -> (r: Option<Timestamp>)
    requires
        tz_known(name@),
        in_range(utc),
    ensures
        r == tz_with_second(name@, utc, second),
{
    let zone: Tz = name.parse().unwrap();
    let local = DateTime::from_timestamp(utc, 0).unwrap().with_timezone(&zone);
    local.with_second(second).map(|set| set.timestamp())
}

/// The zone that a name stands for: itself where it is known, else UTC.
pub open spec fn zone_or_utc(name: Seq<char>) -> Seq<char> {
    if tz_known(name) {
        name
    } else {
        "UTC"@
    }
}

/// The zone that a name stands for: itself where it is known, else UTC.
pub fn effective_zone<'a>(name: &'a str) -> (zone: &'a str)
    ensures
        zone@ == zone_or_utc(name@),
        tz_known(zone@),
{
    if zone_is_known(name) {
        name
    } else {
        utc_zone()
    }
}

/// The local day of the instant `now` in the zone that `name` stands for;
/// nothing for an instant out of range.
pub open spec fn local_date(name: Seq<char>, now: Timestamp) -> Option<CalendarDate> {
    if in_range(now) {
        Some(tz_local_date(zone_or_utc(name), now))
    } else {
        None
    }
}

/// The local day of the instant `now` in the zone that `name` stands for.
pub fn current_date_in(name: &str, now: Timestamp) -> (date: Option<CalendarDate>)
    ensures
        date == local_date(name@, now),
{
    if now < MIN_TIMESTAMP || now > MAX_TIMESTAMP {
        return None;
    }
    Some(zone_local_date(effective_zone(name), now))
}

/// A step of the way to midnight counts only where it stays in range.
pub open spec fn within_range(instant: Option<Timestamp>) -> Option<Timestamp> {
    match instant {
        Some(instant) => if in_range(instant) {
            Some(instant)
        } else {
            None
        },
        None => None,
    }
}

/// The start of the local day of `instant` in the zone `zone`: hour, minute
/// and second set to zero in turn, where each of these local times exists once
/// and stays in range.
pub open spec fn start_of_local_day(zone: Seq<char>, instant: Timestamp) -> Option<Timestamp> {
    match within_range(tz_with_hour(zone, instant, 0)) {
        Some(hour_set) => match within_range(tz_with_minute(zone, hour_set, 0)) {
            Some(minute_set) => tz_with_second(zone, minute_set, 0),
            None => None,
        },
        None => None,
    }
}

/// When the entry of the local day of `now` may be sealed: at the local
/// midnight that ends the day. Where that midnight cannot be told, a day after
/// `now`. Nothing for an instant out of range.
pub open spec fn expiry_of(name: Seq<char>, now: Timestamp) -> Option<Timestamp> {
    if in_range(now) && in_range((now + DAY_SECS) as i64) {
        match start_of_local_day(zone_or_utc(name), (now + DAY_SECS) as i64) {
            Some(midnight) => Some(midnight),
            None => Some((now + DAY_SECS) as i64),
        }
    } else {
        None
    }
}

/// When the entry of the local day of `now`, in the zone that `name` stands
/// for, may be sealed.
pub fn daily_entry_expiry(name: &str, now: Timestamp) -> (expiry: Option<Timestamp>)
    ensures
        expiry == expiry_of(name@, now),
{
    if now < MIN_TIMESTAMP || now > MAX_TIMESTAMP - DAY_SECS {
        return None;
    }
    let zone = effective_zone(name);
    let next_day = now + DAY_SECS;
    let hour_set = match zone_with_hour(zone, next_day, 0) {
        Some(instant) if MIN_TIMESTAMP <= instant && instant <= MAX_TIMESTAMP => instant,
        _ => {
            return Some(next_day);
        },
    };
    let minute_set = match zone_with_minute(zone, hour_set, 0) {
        Some(instant) if MIN_TIMESTAMP <= instant && instant <= MAX_TIMESTAMP => instant,
        _ => {
            return Some(next_day);
        },
    };
    match zone_with_second(zone, minute_set, 0) {
        Some(midnight) => Some(midnight),
        None => Some(next_day),
    }
}

/// The zone that a client asks to live by: none where it names none, the named
/// one where it is known, and a refusal where it is not.
pub open spec fn requested_zone(name: Seq<char>) -> Result<Option<Seq<char>>, ()> {
    if name.len() == 0 {
        Ok(None)
    } else if tz_known(name) {
        Ok(Some(name))
    } else {
        Err(())
    }
}

/// The characters of a requested zone.
pub open spec fn zone_view(zone: Result<Option<&str>, ()>) -> Result<Option<Seq<char>>, ()> {
    match zone {
        Ok(Some(name)) => Ok(Some(name@)),
        Ok(None) => Ok(None),
        Err(e) => Err(e),
    }
}

/// Takes in the zone that a client asks to live by.
pub fn deserialize_tz<'a>(name: &'a str) -> (zone: Result<Option<&'a str>, ()>)
    ensures
        zone_view(zone) == requested_zone(name@),
{
    if name.is_empty() {
        Ok(None)
    } else if zone_is_known(name) {
        Ok(Some(name))
    } else {
        Err(())
    }
}

} // verus!

//! Calendar days and wall-clock time as plain numbers, and the few
//! readings and parses that come from `chrono`.

use chrono::{Datelike, Local, NaiveDate, Timelike};
use vstd::prelude::*;

use crate::code::unix_nanos;

verus! {

/// The retention window, in days.
pub const RETENTION_DAYS: i32 = 7;

/// A calendar day, held as its day number in the proleptic Gregorian
/// calendar (1 is January 1 of year 1).
#[derive(Clone, Copy, Debug, PartialEq, Eq, Structural)]
pub struct Date {
    pub days: i32,
}

/// A local wall-clock reading: the day, the seconds since its midnight, and
/// the nanoseconds of the second (one thousand million or more only within
/// a leap second).
#[derive(Clone, Copy, Debug, PartialEq, Eq, Structural)]
pub struct DateTime {
    pub date: Date,
    pub secs: u32,
    pub nanos: u32,
}

impl DateTime {
    /// What every clock reading satisfies.
    pub open spec fn valid(self) -> bool {
        &&& -96_000_000 < self.date.days < 96_000_000
        &&& self.secs < 86_400
        &&& self.nanos < 2_000_000_000
    }

    /// Nanoseconds from this reading to the next midnight; negative only
    /// within a leap second at the end of a day.
    pub open spec fn nanos_to_midnight(self) -> int {
        86_400 * 1_000_000_000 - (self.secs * 1_000_000_000 + self.nanos)
    }
}

/// The day number that `chrono` reads from a text in the form `%Y-%m-%d`,
/// if it reads one.
pub uninterp spec fn ymd_day_number(text: Seq<char>) -> Option<int>;

/// `NaiveDate::parse_from_str` with the format `%Y-%m-%d`, and
/// `Datelike::num_days_from_ce` on what it read: the result is the named
/// day number of the text, and `None` exactly where the parse fails.
#[verifier::external_body]
fn parse_ymd(text: &str) -> (days: Option<i32>)
    ensures
        days matches Some(d) ==> ymd_day_number(text@) == Some(d as int),
        days is None ==> ymd_day_number(text@) is None,
{
    match NaiveDate::parse_from_str(text, "%Y-%m-%d") {
        Ok(date) => Some(date.num_days_from_ce()),
        Err(_) => None,
    }
}

/// The latest second since the Unix epoch that is turned into local time:
/// about the year 33,658, far inside the days that a reading can hold.
pub const CLOCK_LIMIT: u64 = 1_000_000_000_000;

/// `DateTime::from_timestamp`, then `with_timezone(&Local)`, `naive_local`
/// and the accessors of `Datelike` and `Timelike`: the local wall-clock time
/// at a time given in seconds and nanoseconds since the Unix epoch. Which
/// local time that is depends on the time zone of the machine; what is
/// claimed is only the ranges that `chrono` keeps: the year within its 19
/// bits (so the day number within 96 million either way), the seconds
/// within a day, the nanoseconds below two thousand million; and that a
/// time within `requires` has a reading, since `from_timestamp` refuses only
/// days outside `chrono`'s range. `requires` leaves out the times near the
/// ends of that range, where the local time cannot be held. The time zone is
/// looked up in the zone data of the machine, which is taken to be sound.
#[verifier::external_body]
fn local_reading(secs: i64, nanos: u32) -> (reading: Option<DateTime>)
    requires
        0 <= secs <= CLOCK_LIMIT,
        nanos < 1_000_000_000,
    ensures
        reading is Some,
        reading matches Some(now) ==> now.valid(),
{
    match chrono::DateTime::from_timestamp(secs, nanos) {
        Some(utc) => {
            let local = utc.with_timezone(&Local).naive_local();
            Some(
                DateTime {
                    date: Date { days: local.num_days_from_ce() },
                    secs: local.num_seconds_from_midnight(),
                    nanos: local.nanosecond(),
                },
            )
        },
        None => None,
    }
}

/// The local wall-clock time at `nanos` nanoseconds since the Unix epoch:
/// there is one exactly for a time up to `CLOCK_LIMIT` seconds.
pub fn local_time_at(nanos: u128) -> (reading: Option<DateTime>)
    ensures
        reading is Some <==> nanos / 1_000_000_000 <= CLOCK_LIMIT,
        reading matches Some(now) ==> now.valid(),
{
    let secs: u128 = nanos / 1_000_000_000;
    if secs > CLOCK_LIMIT as u128 {
        None
    } else {
        local_reading(secs as i64, (nanos % 1_000_000_000) as u32)
    }
}

/// The local wall-clock time; none where the system clock reads earlier
/// than the Unix epoch or later than `CLOCK_LIMIT` seconds after it.
pub fn get_datetime() -> (reading: Option<DateTime>)
    ensures
        reading matches Some(now) ==> now.valid(),
{
    match unix_nanos() {
        Some(nanos) => local_time_at(nanos),
        None => None,
    }
}

/// Today, by the local clock, where the clock can be read.
pub fn get_date() -> (reading: Option<Date>)
    ensures
        reading matches Some(today) ==> -96_000_000 < today.days < 96_000_000,
{
    match get_datetime() {
        Some(now) => Some(now.date),
        None => None,
    }
}

/// The day a week before `today`: the retention cutoff.
pub fn last_week(today: Date) -> (cutoff: Date)
    requires
        today.days - RETENTION_DAYS >= i32::MIN,
    ensures
        cutoff.days == today.days - RETENTION_DAYS,
{
    Date { days: today.days - RETENTION_DAYS }
}

/// The retention cutoff by the local clock, where the clock can be read.
pub fn get_last_week() -> (reading: Option<Date>)
    ensures
        reading matches Some(cutoff) ==> -96_000_007 < cutoff.days < 95_999_993,
{
    match get_date() {
        Some(today) => Some(last_week(today)),
        None => None,
    }
}

/// Whether something dated `date` has left the retention window on `today`:
/// it has once it is a week old, the cutoff day included.
pub open spec fn is_expired(date: Date, today: Date) -> bool {
    date.days <= today.days - RETENTION_DAYS
}

/// Whether something dated `date` is to be swept on `today`.
pub fn expired(date: Date, today: Date) -> (old: bool)
    ensures
        old == is_expired(date, today),
{
    (date.days as i64) <= (today.days as i64) - (RETENTION_DAYS as i64)
}

/// Reads a date in the form `YYYY-MM-DD`.
pub fn date_from_string(date: &str) -> (parsed: Option<Date>)
    ensures
        parsed matches Some(d) ==> ymd_day_number(date@) == Some(d.days as int),
        parsed is None ==> ymd_day_number(date@) is None,
{
    match parse_ymd(date) {
        Some(days) => Some(Date { days }),
        None => None,
    }
}

/// How long to sleep from `now` until the next local midnight, as whole
/// seconds and nanoseconds. Within a leap second at the very end of a day
/// midnight has, by the clock's count, already passed: the wait is zero.
pub fn until_midnight(now: &DateTime) -> (wait: (u64, u32))
    ensures
        wait.1 < 1_000_000_000,
        wait.0 * 1_000_000_000 + wait.1 == (if now.nanos_to_midnight() >= 0 {
            now.nanos_to_midnight()
        } else {
            0
        }),
{
    let elapsed: u64 = (now.secs as u64) * 1_000_000_000 + (now.nanos as u64);
    let day: u64 = 86_400 * 1_000_000_000;
    if elapsed >= day {
        (0, 0)
    } else {
        let left: u64 = day - elapsed;
        (left / 1_000_000_000, (left % 1_000_000_000) as u32)
    }
}

} // verus!

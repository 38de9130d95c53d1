//! Wall-clock readings: the hour and the day that mark a rate window, and
//! the moment at which the next window starts.

use vstd::prelude::*;
use std::time::SystemTime;
use chrono::Datelike;
use chrono::DateTime;
use chrono::Timelike;
use chrono::Utc;
use crate::text::opt_text;

verus! {

/// The last second of the year 9999, in seconds since 1970.
pub const LAST_PLAIN_SECOND: i64 = 253_402_300_799;

/// Seconds in an hour.
pub const HOUR: i64 = 3600;

/// The UTC hour of day of the moment `secs` seconds after the start of 1970,
/// as chrono gives it; nothing where chrono cannot hold the moment.
pub uninterp spec fn utc_hour(secs: i64) -> Option<u32>;

/// The UTC day of year of the moment `secs`, as chrono gives it.
pub uninterp spec fn utc_ordinal(secs: i64) -> Option<u32>;

/// The moment `secs` in UTC, written by chrono as year, month, day and hour
/// with minutes and seconds at zero, such as `2024-03-01T09:00:00Z`.
pub uninterp spec fn utc_hour_stamp(secs: i64) -> Option<Seq<char>>;

/// Whether `secs` lies between the start of 1970 and the end of 9999.
pub open spec fn plain_moment(secs: i64) -> bool {
    0 <= secs <= LAST_PLAIN_SECOND
}

/// Whether chrono can hold the moment `secs`: it then has an hour and a day
/// of year for it, and can write it out.
pub open spec fn held(secs: i64) -> bool {
    utc_hour(secs) is Some && utc_ordinal(secs) is Some && utc_hour_stamp(secs) is Some
}

/// Reads the system clock with `SystemTime::now` of the standard library,
/// has chrono make a moment of the reading with its `From<SystemTime>` for
/// `DateTime<Utc>`, and takes the moment's `timestamp`, the whole seconds
/// since the start of 1970, below zero for a clock that is set before then.
/// Which moment that is depends on the clock alone. It is one that chrono
/// can hold: chrono makes it with `timestamp_opt` and stops the program
/// where that gives none, which takes a clock that is more than 260000
/// years off; `timestamp` gives back the seconds that the moment was made
/// of.
#[verifier::external_body]
fn utc_now() -> (secs: i64)
    ensures
        held(secs),
{
    DateTime::<Utc>::from(SystemTime::now()).timestamp()
}

/// The hour of day at the moment `secs`: the whole hours since the last
/// midnight, where a day has 86400 seconds and days are counted from the
/// start of 1970 in either direction.
pub open spec fn hour_in_day(secs: i64) -> int {
    ((secs as int) % 86400) / 3600
}

/// chrono's `Timelike::hour`, of the moment that `DateTime::from_timestamp`
/// makes of `secs`. There is none where chrono cannot hold the moment; it
/// can hold every moment from 1970 to 9999. The hour is that of
/// [`hour_in_day`]: chrono keeps the seconds since midnight, the remainder
/// of `secs` by 86400 that is never below zero, and takes the whole hours
/// of them.
#[verifier::external_body]
fn hour_of(secs: i64) -> (r: Option<u32>)
    ensures
        r == utc_hour(secs),
        r matches Some(h) ==> h == hour_in_day(secs),
        plain_moment(secs) ==> r is Some,
{
    match DateTime::<Utc>::from_timestamp(secs, 0) {
        Some(moment) => Some(moment.hour()),
        None => None,
    }
}

/// chrono's `Datelike::ordinal`, of the moment that
/// `DateTime::from_timestamp` makes of `secs`. The day of year is a function
/// of the moment alone and lies between 1 and 366.
#[verifier::external_body]
fn day_of_year(secs: i64) -> (r: Option<u32>)
    ensures
        r == utc_ordinal(secs),
        r matches Some(d) ==> 1 <= d <= 366,
        plain_moment(secs) ==> r is Some,
{
    match DateTime::<Utc>::from_timestamp(secs, 0) {
        Some(moment) => Some(moment.ordinal()),
        None => None,
    }
}

/// chrono's `DateTime::format`, of the moment that
/// `DateTime::from_timestamp` makes of `secs`, with a pattern that writes
/// the date and the hour and puts zeros for minutes and seconds. The text is
/// a function of the moment alone.
#[verifier::external_body]
fn hour_stamp(secs: i64) -> (r: Option<String>)
    ensures
        opt_text(r) == utc_hour_stamp(secs),
        plain_moment(secs) ==> r is Some,
{
    match DateTime::<Utc>::from_timestamp(secs, 0) {
        Some(moment) => Some(moment.format("%Y-%m-%dT%H:00:00Z").to_string()),
        None => None,
    }
}

/// What the rate accounting reads off the clock: the hour of day and the day
/// of year, which together mark the current window, and the start of the
/// next hour, written out.
#[derive(Debug, Clone, PartialEq)]
pub struct ClockReading {
    pub hour: u32,
    pub day: u32,
    pub reset_at: String,
}

impl ClockReading {
    /// Whether the hour lies between 0 and 23 and the day between 1 and 366.
    pub open spec fn in_range(self) -> bool {
        self.hour < 24 && 1 <= self.day <= 366
    }

    /// Whether this is what the clock shows at the moment `secs`: its hour,
    /// which is that of [`hour_in_day`], its day of year, and the hour that
    /// starts within the next 3600 seconds as the time of reset.
    pub open spec fn shows(self, secs: i64) -> bool {
        &&& utc_hour(secs) == Some(self.hour)
        &&& self.hour == hour_in_day(secs)
        &&& utc_ordinal(secs) == Some(self.day)
        &&& secs + HOUR <= i64::MAX
        &&& utc_hour_stamp((secs + HOUR) as i64) == Some(self.reset_at@)
    }

    /// Whether the clock can be read at the moment `secs`.
    pub open spec fn readable(secs: i64) -> bool {
        &&& utc_hour(secs) is Some
        &&& utc_ordinal(secs) is Some
        &&& secs + HOUR <= i64::MAX
        &&& utc_hour_stamp((secs + HOUR) as i64) is Some
    }

    /// Whether `r` is what is read off the clock at the moment `secs`: the
    /// reading of that moment, with hour and day in range, or nothing where
    /// the clock cannot be read then.
    pub open spec fn read_at(secs: i64, r: Option<ClockReading>) -> bool {
        match r {
            Some(c) => c.shows(secs) && c.in_range(),
            None => !Self::readable(secs),
        }
    }

    /// The reading at the moment `secs` seconds after the start of 1970.
    /// There is one for every moment from 1970 to an hour before the end of
    /// 9999.
    pub fn at(secs: i64) -> (r: Option<ClockReading>)
        ensures
            Self::read_at(secs, r),
            0 <= secs <= LAST_PLAIN_SECOND - HOUR ==> r is Some,
    {
        if secs > i64::MAX - HOUR {
            return None;
        }
        let hour = hour_of(secs);
        let day = day_of_year(secs);
        let reset_at = hour_stamp(secs + HOUR);
        match (hour, day, reset_at) {
            (Some(h), Some(d), Some(s)) => Some(ClockReading { hour: h, day: d, reset_at: s }),
            _ => None,
        }
    }

    /// The reading at this moment: what [`ClockReading::at`] gives for the
    /// moment that the system clock shows. That moment is one that chrono
    /// can hold, so there is a reading unless the hour after it is more
    /// than chrono can hold or write out. A system clock that is more than
    /// 260000 years off is more than chrono takes: it stops the program.
    pub fn now() -> (r: Option<ClockReading>)
        ensures
            exists|secs: i64| held(secs) && #[trigger] Self::read_at(secs, r),
    {
        let secs = utc_now();
        let r = Self::at(secs);
        proof {
            assert(held(secs) && Self::read_at(secs, r));
        }
        r
    }
}

} // verus!

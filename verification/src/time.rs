//! Points in time, as chrono keeps them.

use vstd::prelude::*;

use chrono::{Datelike, Timelike};

verus! {

/// Whether chrono's `DateTime::from_timestamp(secs, nanos)` returns a value:
/// the pair lies in chrono's range of dates and `nanos` is a valid
/// (possibly leap) nanosecond.
pub uninterp spec fn chrono_accepts(secs: i64, nanos: u32) -> bool;

/// A bound on the seconds of every date that chrono represents: chrono's
/// dates run from about 262,000 years before year 1 to about 262,000 years
/// after it, less than 9e12 seconds from 1970.
pub const CHRONO_SECS_BOUND: i64 = 9_000_000_000_000;

/// A naive date and time, as chrono's `NaiveDateTime` holds it: the number
/// of whole seconds since 1970-01-01 00:00:00 of the calendar, and the
/// nanoseconds within that second.  Only pairs that chrono accepts exist.
#[derive(Clone, Copy, Debug, PartialEq, Eq)]
pub struct DateTime {
    secs: i64,
    nanos: u32,
}

/// The fields of a date and time in the proleptic Gregorian calendar.
#[derive(Clone, Copy, Debug, PartialEq, Eq)]
pub struct CivilDateTime {
    pub year: i32,
    pub month: u32,
    pub day: u32,
    pub hour: u32,
    pub minute: u32,
    pub second: u32,
}

/// Leap years of the proleptic Gregorian calendar.
pub open spec fn is_leap_year(year: int) -> bool {
    year % 4 == 0 && (year % 100 != 0 || year % 400 == 0)
}

/// The number of days of a month of the proleptic Gregorian calendar.
pub open spec fn days_in_month(year: int, month: int) -> int {
    if month == 2 {
        if is_leap_year(year) { 29 } else { 28 }
    } else if month == 4 || month == 6 || month == 9 || month == 11 {
        30
    } else {
        31
    }
}

/// A valid calendar date with a time of day.
pub open spec fn valid_civil(year: int, month: int, day: int, hour: int, minute: int, second: int) -> bool {
    &&& 1 <= month <= 12
    &&& 1 <= day <= days_in_month(year, month)
    &&& 0 <= hour < 24
    &&& 0 <= minute < 60
    &&& 0 <= second < 60
}

/// The leap years from year 1 through year `y`, counted with floor
/// division, so that differences count the leap years between any two
/// years.
pub open spec fn leaps_through(y: int) -> int {
    y / 4 - y / 100 + y / 400
}

/// The days of a year before the first day of `month`.
pub open spec fn days_before_month(year: int, month: int) -> int {
    let common: int = if month <= 1 { 0 } else if month == 2 { 31 } else if month == 3 { 59 } else if month == 4 { 90 }
        else if month == 5 { 120 } else if month == 6 { 151 } else if month == 7 { 181 } else if month == 8 { 212 }
        else if month == 9 { 243 } else if month == 10 { 273 } else if month == 11 { 304 } else { 334 };
    if month > 2 && is_leap_year(year) { common + 1 } else { common }
}

/// The days from 1970-01-01 to the first day of `year` (negative before
/// 1970).
pub open spec fn days_before_year(year: int) -> int {
    365 * (year - 1970) + leaps_through(year - 1) - leaps_through(1969)
}

/// The seconds from 1970-01-01 00:00:00 to the given date and time of the
/// proleptic Gregorian calendar, leap seconds not counted.
pub open spec fn epoch_seconds(year: int, month: int, day: int, hour: int, minute: int, second: int) -> int {
    (days_before_year(year) + days_before_month(year, month) + day - 1) * 86400 + hour * 3600 + minute * 60 + second
}

/// The days from 1970-01-01 to the given date (negative before 1970).
pub open spec fn epoch_day(year: int, month: int, day: int) -> int {
    days_before_year(year) + days_before_month(year, month) + day - 1
}

/// `c` is the calendar date and time of the point `secs` seconds after
/// 1970-01-01 00:00:00: a valid date and time that lies that many seconds
/// after it.
pub open spec fn civil_of(c: CivilDateTime, secs: int) -> bool {
    &&& valid_civil(c.year as int, c.month as int, c.day as int, c.hour as int, c.minute as int, c.second as int)
    &&& epoch_seconds(c.year as int, c.month as int, c.day as int, c.hour as int, c.minute as int, c.second as int) == secs
}

/// The calendar date of a point in time is the day that holds it: its day
/// number is the whole days since 1970 (rounded down, also before 1970),
/// and its time of day is what is left over.
pub proof fn law_civil_day(c: CivilDateTime, secs: int)
    requires
        civil_of(c, secs),
    ensures
        epoch_day(c.year as int, c.month as int, c.day as int) == secs / 86400,
        c.hour * 3600 + c.minute * 60 + c.second == secs % 86400,
{
    let d = epoch_day(c.year as int, c.month as int, c.day as int);
    let t = c.hour * 3600 + c.minute * 60 + c.second;
    assert(secs == d * 86400 + t);
    vstd::arithmetic::div_mod::lemma_fundamental_div_mod_converse(secs, 86400, d, t);
}

impl DateTime {
    #[verifier::type_invariant]
    spec fn inv(self) -> bool {
        &&& chrono_accepts(self.secs, self.nanos)
        &&& chrono_accepts(self.secs, 0)
        &&& -CHRONO_SECS_BOUND <= self.secs <= CHRONO_SECS_BOUND
    }

    /// The whole seconds since 1970-01-01 00:00:00.
    pub closed spec fn spec_secs(&self) -> i64 {
        self.secs
    }

    /// The nanoseconds within the second.
    pub closed spec fn spec_nanos(&self) -> u32 {
        self.nanos
    }

    /// Two points are equal exactly when their seconds and nanoseconds are.
    pub proof fn lemma_eq(a: DateTime, b: DateTime)
        ensures
            (a == b) <==> (a.spec_secs() == b.spec_secs() && a.spec_nanos() == b.spec_nanos()),
    {
    }

    /// The whole seconds since 1970-01-01 00:00:00.
    #[verifier::when_used_as_spec(spec_secs)]
    pub fn secs(&self) -> (r: i64)
        ensures
            r == self.spec_secs(),
            -CHRONO_SECS_BOUND <= r <= CHRONO_SECS_BOUND,
            chrono_accepts(r, 0),
    {
        proof { use_type_invariant(self); }
        self.secs
    }

    /// The nanoseconds within the second.
    #[verifier::when_used_as_spec(spec_nanos)]
    pub fn nanos(&self) -> (r: u32)
        ensures
            r == self.spec_nanos(),
    {
        self.nanos
    }

    /// The point `secs` seconds and `nanos` nanoseconds after 1970-01-01 00:00:00,
    /// when chrono's `DateTime::from_timestamp` accepts it.
    ///
    /// Trusted: chrono's `from_timestamp` returns `Some` exactly on the pairs
    /// named by `chrono_accepts`, only within chrono's range of dates, and
    /// the value it returns has `secs` as its timestamp and `nanos` as its
    /// sub-second nanoseconds (its source splits `secs` into days and seconds
    /// of the day and puts them back together); when it accepts a pair it
    /// accepts the same second with no nanoseconds, since only the date and
    /// a leap-second fraction can be refused.  chrono's dates run from year
    /// -262143 to year 262142, so every second within 8e12 seconds of 1970
    /// is accepted, with nanoseconds below one second, or below two seconds
    /// for the last second of a minute (a leap second).
    #[verifier::external_body]
    pub fn from_timestamp(secs: i64, nanos: u32) -> (r: Option<DateTime>)
        ensures
            r is Some <==> chrono_accepts(secs, nanos),
            -8_000_000_000_000 <= secs <= 8_000_000_000_000
                && (nanos < 1_000_000_000 || (nanos < 2_000_000_000 && secs % 60 == 59)) ==> r is Some,
            r is Some ==> chrono_accepts(secs, 0),
            r is Some ==> -CHRONO_SECS_BOUND <= secs <= CHRONO_SECS_BOUND,
            r matches Some(d) ==> d.spec_secs() == secs && d.spec_nanos() == nanos,
    {
        match chrono::DateTime::from_timestamp(secs, nanos) {
            Some(d) => Some(DateTime { secs: d.timestamp(), nanos: d.timestamp_subsec_nanos() }),
            None => None,
        }
    }

    /// The calendar fields of this point.
    ///
    /// Trusted: chrono's `Datelike` and `Timelike` accessors of the value that
    /// `from_timestamp` builds; their documentation gives a month from 1 to 12,
    /// a day of that month, an hour below 24 and a minute and second below 60,
    /// and `from_timestamp` counts the seconds since 1970-01-01 00:00:00 of
    /// the proleptic Gregorian calendar, leap seconds not counted: the
    /// fields are the date and time that many seconds after that point.
    #[verifier::external_body]
    pub fn civil(&self) -> (r: CivilDateTime)
        ensures
            valid_civil(r.year as int, r.month as int, r.day as int, r.hour as int, r.minute as int, r.second as int),
            epoch_seconds(r.year as int, r.month as int, r.day as int, r.hour as int, r.minute as int, r.second as int)
                == self.spec_secs(),
    {
        let d = chrono::DateTime::from_timestamp(self.secs, self.nanos).unwrap().naive_utc();
        CivilDateTime {
            year: d.year(),
            month: d.month(),
            day: d.day(),
            hour: d.hour(),
            minute: d.minute(),
            second: d.second(),
        }
    }
}

/// The current local date and time: chrono's `Local::now().naive_local()`.
///
/// Trusted: the result depends on the clock and is left open; chrono
/// documents that its timestamp and nanoseconds give the same value back
/// through `from_timestamp`, so the pair is one that chrono accepts, and so
/// is the same second with no nanoseconds.
#[verifier::external_body]
pub fn local_now() -> (r: DateTime) {
    let n = chrono::Local::now().naive_local().and_utc();
    DateTime { secs: n.timestamp(), nanos: n.timestamp_subsec_nanos() }
}

/// The current UTC date and time: chrono's `Utc::now().naive_utc()`.
///
/// Trusted: as for `local_now`, the value is left open.
#[verifier::external_body]
pub fn utc_now() -> (r: DateTime) {
    let n = chrono::Utc::now();
    DateTime { secs: n.timestamp(), nanos: n.timestamp_subsec_nanos() }
}

} // verus!

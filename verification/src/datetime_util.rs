//! Calendar values of the host and their offsets from a fixed epoch.
//!
//! A column of dates holds days since 1970-01-01, a column of times seconds since
//! midnight, a column of timestamps seconds since 1970-01-01 00:00:00. The host hands
//! over civil fields. The calendar arithmetic between the two is chrono's; none of it
//! reads a time zone or a clock.

use chrono::{Datelike, NaiveDate, NaiveDateTime, NaiveTime, TimeDelta, Timelike};
use vstd::prelude::*;

verus! {

/// A civil date, as the host gives its fields.
#[derive(Clone, Copy, Debug, PartialEq, Eq, Structural)]
pub struct Date {
    pub year: i32,
    pub month: u8,
    pub day: u8,
}

/// A time of day in whole seconds.
#[derive(Clone, Copy, Debug, PartialEq, Eq, Structural)]
pub struct Time {
    pub hour: u8,
    pub minute: u8,
    pub second: u8,
}

/// A civil date and time of day in whole seconds, without a time zone.
#[derive(Clone, Copy, Debug, PartialEq, Eq, Structural)]
pub struct Timestamp {
    pub year: i32,
    pub month: u8,
    pub day: u8,
    pub hour: u8,
    pub minute: u8,
    pub second: u8,
}

/// The largest number of seconds, in either direction, that a chrono duration is made of.
pub const MAX_DURATION_SECONDS: i64 = 9_223_372_036_854_775;

/// The date that chrono's `NaiveDate::checked_add_signed` gives for `start` and a
/// duration of `days` whole days; `None` where it gives none or `start` is no date.
pub uninterp spec fn date_after(start: Date, days: int) -> Option<Date>;

/// The whole days that chrono's `NaiveDate::signed_duration_since` counts from `from`
/// to `to`; `None` where one of them is no date.
pub uninterp spec fn days_between(to: Date, from: Date) -> Option<int>;

/// The date and time that chrono's `NaiveDateTime::checked_add_signed` gives for
/// `start` and a duration of `seconds` whole seconds.
pub uninterp spec fn instant_after(start: Timestamp, seconds: int) -> Option<Timestamp>;

/// The whole seconds that chrono's `NaiveDateTime::signed_duration_since` counts from
/// `from` to `to`; `None` where one of them is no date and time.
pub uninterp spec fn seconds_between(to: Timestamp, from: Timestamp) -> Option<int>;

impl Time {
    /// The fields name a second of the day.
    pub open spec fn is_valid(self) -> bool {
        self.hour < 24 && self.minute < 60 && self.second < 60
    }

    /// Seconds from midnight to this time.
    pub open spec fn seconds(self) -> int {
        self.hour * 3600 + self.minute * 60 + self.second
    }

    /// The time that lies `seconds` after midnight, whole days left out.
    pub open spec fn of_seconds(seconds: int) -> Time {
        let s = seconds % 86_400;
        Time { hour: (s / 3600) as u8, minute: ((s % 3600) / 60) as u8, second: (s % 60) as u8 }
    }

    /// What adding `seconds` to `start` gives: the sum wraps round the day; there is no
    /// result where `start` is no time of day or the count is too large for a duration.
    pub open spec fn after(start: Time, seconds: int) -> Option<Time> {
        if start.is_valid() && -MAX_DURATION_SECONDS <= seconds <= MAX_DURATION_SECONDS {
            Some(Time::of_seconds(start.seconds() + seconds))
        } else {
            None
        }
    }

    /// Seconds from `from` to `to`, where both are times of day.
    pub open spec fn between(to: Time, from: Time) -> Option<int> {
        if to.is_valid() && from.is_valid() {
            Some(to.seconds() - from.seconds())
        } else {
            None
        }
    }
}

/// Calls chrono's `NaiveDate::checked_add_signed` on the date with the fields of
/// `start` and a duration of `days` days. The contract names the result; it claims
/// nothing else of it.
#[verifier::external_body]
fn date_plus_days(start: &Date, days: i64) -> (r: Option<Date>)
    ensures
        r == date_after(*start, days as int),
{
    let from = NaiveDate::from_ymd_opt(start.year, start.month.into(), start.day.into())?;
    let to = from.checked_add_signed(TimeDelta::try_days(days)?)?;
    Some(Date { year: to.year(), month: to.month() as u8, day: to.day() as u8 })
}

/// Calls chrono's `NaiveDate::signed_duration_since` on the dates with the fields of
/// `to` and `from` and takes the whole days of the duration. The contract names the
/// result and claims that chrono's addition undoes its subtraction: `from` moved by
/// the days counted is `to` again. chrono computes both on one count of days, the
/// 400-year cycle of a date and its day in the cycle.
#[verifier::external_body]
fn days_from(to: &Date, from: &Date) -> (r: Option<i64>)
    ensures
        match r {
            Some(n) => days_between(*to, *from) == Some(n as int) && date_after(*from, n as int)
                == Some(*to),
            None => days_between(*to, *from) is None,
        },
{
    let a = NaiveDate::from_ymd_opt(to.year, to.month.into(), to.day.into())?;
    let b = NaiveDate::from_ymd_opt(from.year, from.month.into(), from.day.into())?;
    Some(a.signed_duration_since(b).num_days())
}

/// Calls chrono's `NaiveDateTime::checked_add_signed` on the date and time with the
/// fields of `start` and a duration of `seconds` seconds. The contract names the
/// result; it claims nothing else of it.
#[verifier::external_body]
fn instant_plus_seconds(start: &Timestamp, seconds: i64) -> (r: Option<Timestamp>)
    ensures
        r == instant_after(*start, seconds as int),
{
    let date = NaiveDate::from_ymd_opt(start.year, start.month.into(), start.day.into())?;
    let time = NaiveTime::from_hms_opt(start.hour.into(), start.minute.into(), start.second.into())?;
    let to = NaiveDateTime::new(date, time).checked_add_signed(TimeDelta::try_seconds(seconds)?)?;
    Some(
        Timestamp {
            year: to.year(),
            month: to.month() as u8,
            day: to.day() as u8,
            hour: to.hour() as u8,
            minute: to.minute() as u8,
            second: to.second() as u8,
        },
    )
}

/// Calls chrono's `NaiveDateTime::signed_duration_since` on the dates and times with
/// the fields of `to` and `from` and takes the whole seconds of the duration. The
/// contract names the result and claims that chrono's addition undoes its
/// subtraction: `from` moved by the seconds counted is `to` again. chrono adds the
/// seconds to the time of day and moves the date by the whole days that come of it.
#[verifier::external_body]
fn seconds_from(to: &Timestamp, from: &Timestamp) -> (r: Option<i64>)
    ensures
        match r {
            Some(n) => seconds_between(*to, *from) == Some(n as int) && instant_after(
                *from,
                n as int,
            ) == Some(*to),
            None => seconds_between(*to, *from) is None,
        },
{
    let a = NaiveDateTime::new(
        NaiveDate::from_ymd_opt(to.year, to.month.into(), to.day.into())?,
        NaiveTime::from_hms_opt(to.hour.into(), to.minute.into(), to.second.into())?,
    );
    let b = NaiveDateTime::new(
        NaiveDate::from_ymd_opt(from.year, from.month.into(), from.day.into())?,
        NaiveTime::from_hms_opt(from.hour.into(), from.minute.into(), from.second.into())?,
    );
    Some(a.signed_duration_since(b).num_seconds())
}

/// Adds a duration of `seconds` seconds to the time of day with the fields of `start`,
/// with chrono's `+` on `NaiveTime`, which wraps round the day and drops whole days.
/// chrono takes a time of day with an hour under 24 and minute and second under 60,
/// and makes a duration of at most `MAX_DURATION_SECONDS` seconds either way.
#[verifier::external_body]
fn time_plus_seconds(start: &Time, seconds: i64) -> (r: Option<Time>)
    ensures
        r == Time::after(*start, seconds as int),
{
    let from = NaiveTime::from_hms_opt(start.hour.into(), start.minute.into(), start.second.into())?;
    let to = from + TimeDelta::try_seconds(seconds)?;
    Some(Time { hour: to.hour() as u8, minute: to.minute() as u8, second: to.second() as u8 })
}

/// Calls chrono's `NaiveTime::signed_duration_since` on the times of day with the
/// fields of `to` and `from` and takes the whole seconds of the duration: the
/// difference of their seconds since midnight.
#[verifier::external_body]
fn seconds_from_time(to: &Time, from: &Time) -> (r: Option<i64>)
    ensures
        match r {
            Some(n) => Time::between(*to, *from) == Some(n as int),
            None => Time::between(*to, *from) is None,
        },
{
    let a = NaiveTime::from_hms_opt(to.hour.into(), to.minute.into(), to.second.into())?;
    let b = NaiveTime::from_hms_opt(from.hour.into(), from.minute.into(), from.second.into())?;
    Some(a.signed_duration_since(b).num_seconds())
}

/// The start of the day.
pub fn midnight() -> (t: Time)
    ensures
        t == (Time { hour: 0, minute: 0, second: 0 }),
{
    Time { hour: 0, minute: 0, second: 0 }
}

/// The day from which date columns count.
pub fn epoch_day() -> (d: Date)
    ensures
        d == (Date { year: 1970, month: 1, day: 1 }),
{
    Date { year: 1970, month: 1, day: 1 }
}

/// The second from which timestamp columns count.
pub fn epoch_time() -> (t: Timestamp)
    ensures
        t == (Timestamp { year: 1970, month: 1, day: 1, hour: 0, minute: 0, second: 0 }),
{
    Timestamp { year: 1970, month: 1, day: 1, hour: 0, minute: 0, second: 0 }
}

pub open spec fn spec_midnight() -> Time {
    Time { hour: 0, minute: 0, second: 0 }
}

pub open spec fn spec_epoch_day() -> Date {
    Date { year: 1970, month: 1, day: 1 }
}

pub open spec fn spec_epoch_time() -> Timestamp {
    Timestamp { year: 1970, month: 1, day: 1, hour: 0, minute: 0, second: 0 }
}

/// Values that are counted in whole days from the epoch day.
pub trait EpochForTime: Sized {
    /// The value that lies `epoch_day` days after the epoch, where the calendar reaches it.
    spec fn at_epoch_day(epoch_day: int) -> Option<Self>;

    /// Days from the epoch to this value, where it is a day of the calendar.
    spec fn epoch_day_of(&self) -> Option<int>;

    /// The value `epoch_day` days after the epoch; `None` outside the calendar.
    fn from_epoch_day(epoch_day: i32) -> (r: Option<Self>)
        ensures
            r == Self::at_epoch_day(epoch_day as int),
    ;

    /// Days from the epoch to this value; `None` where it is no day of the calendar or
    /// the count is outside `i32`. A count that is returned leads back to the value.
    fn to_epoch_day(&self) -> (r: Option<i32>)
        ensures
            match r {
                Some(n) => self.epoch_day_of() == Some(n as int) && Self::at_epoch_day(n as int)
                    == Some(*self),
                None => match self.epoch_day_of() {
                    Some(n) => n < i32::MIN || n > i32::MAX,
                    None => true,
                },
            },
    ;
}

impl EpochForTime for Date {
    open spec fn at_epoch_day(epoch_day: int) -> Option<Date> {
        date_after(spec_epoch_day(), epoch_day)
    }

    open spec fn epoch_day_of(&self) -> Option<int> {
        days_between(*self, spec_epoch_day())
    }

    fn from_epoch_day(epoch_day: i32) -> (r: Option<Date>) {
        let start = self::epoch_day();
        date_plus_days(&start, epoch_day as i64)
    }

    fn to_epoch_day(&self) -> (r: Option<i32>) {
        let start = self::epoch_day();
        match days_from(self, &start) {
            Some(n) => {
                if n < i32::MIN as i64 || n > i32::MAX as i64 {
                    None
                } else {
                    Some(n as i32)
                }
            },
            None => None,
        }
    }
}

/// Values that are counted in whole seconds from an epoch.
pub trait EpochTimeZone: Sized {
    /// The value that lies `epoch_time` seconds after the epoch, where there is one.
    spec fn at_epoch_time(epoch_time: int) -> Option<Self>;

    /// Seconds from the epoch to this value, where its fields name one.
    spec fn epoch_time_of(&self) -> Option<int>;

    /// The value `epoch_time` seconds after the epoch.
    fn from_epoch_time(epoch_time: i64) -> (r: Option<Self>)
        ensures
            r == Self::at_epoch_time(epoch_time as int),
    ;

    /// Seconds from the epoch to this value; `None` where its fields name none. A
    /// count that is returned leads back to the value.
    fn to_epoch_time(&self) -> (r: Option<i64>)
        ensures
            match r {
                Some(n) => self.epoch_time_of() == Some(n as int) && Self::at_epoch_time(n as int)
                    == Some(*self),
                None => self.epoch_time_of() is None,
            },
    ;
}

impl EpochTimeZone for Timestamp {
    open spec fn at_epoch_time(epoch_time: int) -> Option<Timestamp> {
        instant_after(spec_epoch_time(), epoch_time)
    }

    open spec fn epoch_time_of(&self) -> Option<int> {
        seconds_between(*self, spec_epoch_time())
    }

    fn from_epoch_time(epoch_time: i64) -> (r: Option<Timestamp>) {
        let start = self::epoch_time();
        instant_plus_seconds(&start, epoch_time)
    }

    fn to_epoch_time(&self) -> (r: Option<i64>) {
        let start = self::epoch_time();
        seconds_from(self, &start)
    }
}

impl EpochTimeZone for Time {
    open spec fn at_epoch_time(epoch_time: int) -> Option<Time> {
        Time::after(spec_midnight(), epoch_time)
    }

    open spec fn epoch_time_of(&self) -> Option<int> {
        Time::between(*self, spec_midnight())
    }

    fn from_epoch_time(epoch_time: i64) -> (r: Option<Time>) {
        let start = midnight();
        time_plus_seconds(&start, epoch_time)
    }

    fn to_epoch_time(&self) -> (r: Option<i64>) {
        let start = midnight();
        let r = seconds_from_time(self, &start);
        proof {
            if self.is_valid() {
                lemma_time_of_seconds(*self);
            }
        }
        r
    }
}

/// A time of day is found again from its seconds since midnight.
pub proof fn lemma_time_of_seconds(t: Time)
    requires
        t.is_valid(),
    ensures
        0 <= t.seconds() < 86_400,
        Time::of_seconds(t.seconds()) == t,
{
    let s = t.seconds();
    assert(s % 86_400 == s);
    assert(s / 3600 == t.hour as int && s % 3600 == t.minute * 60 + t.second) by {
        vstd::arithmetic::div_mod::lemma_fundamental_div_mod_converse(
            s,
            3600,
            t.hour as int,
            t.minute * 60 + t.second,
        );
    }
    let m = t.minute * 60 + t.second;
    assert(m / 60 == t.minute as int && m % 60 == t.second as int) by {
        vstd::arithmetic::div_mod::lemma_fundamental_div_mod_converse(
            m,
            60,
            t.minute as int,
            t.second as int,
        );
    }
    assert(s % 60 == t.second as int) by {
        vstd::arithmetic::div_mod::lemma_fundamental_div_mod_converse(
            s,
            60,
            t.hour * 60 + t.minute,
            t.second as int,
        );
    }
}

} // verus!

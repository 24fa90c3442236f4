//! Calendar values as the renderer reads them: a date as year, month and
//! day, a time of day as hour and minute, and their combination.  The only
//! calendar fact the renderer needs beyond the fields is the day of the
//! week, which the `chrono` crate supplies and Zeller's congruence states.

use vstd::prelude::*;
use crate::text::{zero_pad, zero_padded, push_all};

verus! {

/// A year divisible by four, except centuries not divisible by four hundred.
pub open spec fn is_leap_year(y: int) -> bool {
    y % 4 == 0 && (y % 100 != 0 || y % 400 == 0)
}

/// The number of days of month `m` of year `y`.
pub open spec fn days_in_month(y: int, m: int) -> int {
    if m == 1 || m == 3 || m == 5 || m == 7 || m == 8 || m == 10 || m == 12 {
        31
    } else if m == 4 || m == 6 || m == 9 || m == 11 {
        30
    } else if is_leap_year(y) {
        29
    } else {
        28
    }
}

/// A proleptic Gregorian calendar date that exists and that the renderer can
/// show with a four-digit year.
pub open spec fn valid_ymd(y: int, m: int, d: int) -> bool {
    1 <= y <= 9999 && 1 <= m <= 12 && 1 <= d <= days_in_month(y, m)
}

/// The day of the week of a Gregorian date by Zeller's congruence, counted
/// as days since Sunday: 0 is Sunday, 5 is Friday, 6 is Saturday.
pub open spec fn weekday_of(year: int, month: int, day: int) -> int {
    let yy = if month <= 2 {
        year - 1
    } else {
        year
    };
    let mm = if month <= 2 {
        month + 12
    } else {
        month
    };
    let kk = yy % 100;
    let jj = yy / 100;
    let h = (day + (13 * (mm + 1)) / 5 + kk + kk / 4 + jj / 4 + 5 * jj) % 7;
    (h + 6) % 7
}

/// A calendar date.
#[derive(Clone, Copy, Debug, PartialEq, Eq, Structural)]
pub struct Date {
    pub year: u32,
    pub month: u32,
    pub day: u32,
}

/// A time of day, to the minute.
#[derive(Clone, Copy, Debug, PartialEq, Eq, Structural)]
pub struct Time {
    pub hour: u32,
    pub minute: u32,
}

/// A calendar date together with a time of day.
#[derive(Clone, Copy, Debug, PartialEq, Eq, Structural)]
pub struct DateTime {
    pub date: Date,
    pub time: Time,
}

impl Date {
    /// The date names a day that exists.
    pub open spec fn valid(self) -> bool {
        valid_ymd(self.year as int, self.month as int, self.day as int)
    }
}

impl Time {
    /// The fields name a minute of the day.
    pub open spec fn valid(self) -> bool {
        self.hour < 24 && self.minute < 60
    }
}

impl DateTime {
    /// Both halves are valid.
    pub open spec fn valid(self) -> bool {
        self.date.valid() && self.time.valid()
    }
}

/// Relies on `chrono::NaiveDate`: `from_ymd_opt` succeeds on every date that
/// exists in the proleptic Gregorian calendar, and `weekday` reports its day
/// of the week; `num_days_from_sunday` counts 0 for Sunday up to 6 for
/// Saturday, which agrees with Zeller's congruence.
#[verifier::external_body]
pub fn weekday_from_sunday(year: u32, month: u32, day: u32) -> (r: u32)
    requires
        valid_ymd(year as int, month as int, day as int),
    ensures
        r as int == weekday_of(year as int, month as int, day as int),
        r < 7,
{
    let date = chrono::NaiveDate::from_ymd_opt(year as i32, month, day).unwrap();
    chrono::Datelike::weekday(&date).num_days_from_sunday()
}

/// The 1-indexed week of the month that the day falls in, on a week grid
/// aligned to Sunday: one more than the full weeks between the day and the
/// start of the month, shifted by the weekday of the first.
pub open spec fn week_of_month(d: Date) -> int {
    (d.day as int + weekday_of(d.year as int, d.month as int, 1)) / 7 + 1
}

/// The monthly options-expiration convention: the date is a Friday in the
/// third week of its month.
pub open spec fn is_expiration(d: Date) -> bool {
    week_of_month(d) == 3 && weekday_of(d.year as int, d.month as int, d.day as int) == 5
}

/// Decides the expiration-footnote rule for a date.
pub fn is_monthly_expiration(d: &Date) -> (r: bool)
    requires
        d.valid(),
    ensures
        r == is_expiration(*d),
{
    let first = weekday_from_sunday(d.year, d.month, 1);
    let week = (d.day + first) / 7 + 1;
    let wd = weekday_from_sunday(d.year, d.month, d.day);
    week == 3 && wd == 5
}

/// The `YYYY-MM-DD` notation of a date.
pub open spec fn date_text(d: Date) -> Seq<char> {
    zero_pad(d.year as nat, 4) + seq!['-'] + zero_pad(d.month as nat, 2) + seq!['-'] + zero_pad(
        d.day as nat,
        2,
    )
}

/// The `HH:MM` notation of a time.
pub open spec fn time_text(t: Time) -> Seq<char> {
    zero_pad(t.hour as nat, 2) + seq![':'] + zero_pad(t.minute as nat, 2)
}

/// The `YYYY-MM-DD HH:MM` notation of a combined value.
pub open spec fn datetime_text(dt: DateTime) -> Seq<char> {
    date_text(dt.date) + seq![' '] + time_text(dt.time)
}

/// The `YYYY-MM-DD` characters of a date.
pub fn date_chars(d: &Date) -> (r: Vec<char>)
    ensures
        r@ == date_text(*d),
{
    let mut out = zero_padded(d.year as u64, 4);
    out.push('-');
    let month = zero_padded(d.month as u64, 2);
    push_all(&mut out, &month);
    out.push('-');
    let day = zero_padded(d.day as u64, 2);
    push_all(&mut out, &day);
    proof {
        assert(out@ =~= date_text(*d));
    }
    out
}

/// The `HH:MM` characters of a time.
pub fn time_chars(t: &Time) -> (r: Vec<char>)
    ensures
        r@ == time_text(*t),
{
    let mut out = zero_padded(t.hour as u64, 2);
    out.push(':');
    let minute = zero_padded(t.minute as u64, 2);
    push_all(&mut out, &minute);
    proof {
        assert(out@ =~= time_text(*t));
    }
    out
}

/// The `YYYY-MM-DD HH:MM` characters of a combined value.
pub fn datetime_chars(dt: &DateTime) -> (r: Vec<char>)
    ensures
        r@ == datetime_text(*dt),
{
    let mut out = date_chars(&dt.date);
    out.push(' ');
    let time = time_chars(&dt.time);
    push_all(&mut out, &time);
    proof {
        assert(out@ =~= datetime_text(*dt));
    }
    out
}

} // verus!

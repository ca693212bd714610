//! The month calendar that `show_calendar` prints: a title, a row of
//! weekday heads, then the days in weeks that start on Sunday.
use vstd::prelude::*;
use chrono::{Datelike, Month, NaiveDate};
use crate::numbers::{dec, decimal, signed_dec, signed_decimal};
use crate::protocol::{cat, Announcement};

verus! {

#[verifier::external_type_specification]
#[verifier::external_body]
pub struct ExNaiveDate(NaiveDate);

/// Lowest year that the calendar holds.
pub const MIN_YEAR: i32 = -262143;

/// Highest year that the calendar holds.
pub const MAX_YEAR: i32 = 262142;

/// Whether `y` is a leap year of the Gregorian calendar.
pub open spec fn is_leap(y: int) -> bool {
    y % 4 == 0 && (y % 100 != 0 || y % 400 == 0)
}

/// The number of days of month `m` of year `y`.
pub open spec fn days_in(y: int, m: int) -> nat {
    if m == 2 {
        if is_leap(y) {
            29
        } else {
            28
        }
    } else if m == 4 || m == 6 || m == 9 || m == 11 {
        30
    } else {
        31
    }
}

/// Day `d` of month `m` of year `y` is a date that the calendar holds.
pub open spec fn valid_date(y: int, m: int, d: int) -> bool {
    MIN_YEAR <= y <= MAX_YEAR && 1 <= m <= 12 && 1 <= d <= days_in(y, m)
}

/// The offset of month `m` in the weekday formula.
pub open spec fn month_offset(m: int) -> int {
    if m == 1 {
        0
    } else if m == 2 {
        3
    } else if m == 3 {
        2
    } else if m == 4 {
        5
    } else if m == 5 {
        0
    } else if m == 6 {
        3
    } else if m == 7 {
        5
    } else if m == 8 {
        1
    } else if m == 9 {
        4
    } else if m == 10 {
        6
    } else if m == 11 {
        2
    } else {
        4
    }
}

/// The weekday of a Gregorian date, Sunday 0 to Saturday 6 (the calendar
/// repeats every 400 years, a whole number of weeks).
pub open spec fn weekday_of(y: int, m: int, d: int) -> int {
    let yy = if m < 3 {
        y - 1
    } else {
        y
    };
    (yy + yy / 4 - yy / 100 + yy / 400 + month_offset(m) + d) % 7
}

/// The English name of month `m` (January is 1).
pub open spec fn month_name_of(m: int) -> Seq<char> {
    if m == 1 {
        "January"@
    } else if m == 2 {
        "February"@
    } else if m == 3 {
        "March"@
    } else if m == 4 {
        "April"@
    } else if m == 5 {
        "May"@
    } else if m == 6 {
        "June"@
    } else if m == 7 {
        "July"@
    } else if m == 8 {
        "August"@
    } else if m == 9 {
        "September"@
    } else if m == 10 {
        "October"@
    } else if m == 11 {
        "November"@
    } else {
        "December"@
    }
}

/// Relies on `NaiveDate::from_ymd_opt`: a date exactly when the day exists in
/// that month of the proleptic Gregorian calendar and the year is in range.
pub assume_specification[ NaiveDate::from_ymd_opt ](year: i32, month: u32, day: u32) -> (r: Option<
    NaiveDate,
>)
    ensures
        r is Some <==> valid_date(year as int, month as int, day as int),
;

/// Relies on `Datelike::weekday` and `Weekday::num_days_from_sunday` of the
/// first day of the month: Sunday is 0, Saturday 6.
#[verifier::external_body]
fn first_weekday(year: i32, month: u32) -> (r: u32)
    requires
        valid_date(year as int, month as int, 1),
    ensures
        r as int == weekday_of(year as int, month as int, 1),
{
    match NaiveDate::from_ymd_opt(year, month, 1) {
        Some(d) => d.weekday().num_days_from_sunday(),
        None => 0,
    }
}

/// Relies on `Month::name`: the English name of the month.
#[verifier::external_body]
fn month_name(month: u32) -> (r: String)
    requires
        1 <= month <= 12,
    ensures
        r@ == month_name_of(month as int),
{
    match Month::try_from(month as u8) {
        Ok(m) => m.name().to_string(),
        Err(_) => String::new(),
    }
}

/// A day number two characters wide, padded with a space on the left.
pub open spec fn padded(d: nat) -> Seq<char> {
    if d < 10 {
        seq![' '] + dec(d)
    } else {
        dec(d)
    }
}

/// The days 1 to `n` of a month of `days` days whose first day falls on
/// weekday `start`: each day padded and followed by a space, a line break
/// after each Saturday and after the last day.
pub open spec fn day_cells(start: nat, days: nat, n: nat) -> Seq<char>
    decreases n,
{
    if n == 0 {
        Seq::empty()
    } else {
        let brk = if (start + n) % 7 == 0 || n == days {
            seq!['\n']
        } else {
            Seq::empty()
        };
        day_cells(start, days, (n - 1) as nat) + padded(n) + seq![' '] + brk
    }
}

/// `k` blank day cells.
pub open spec fn blanks(k: nat) -> Seq<char>
    decreases k,
{
    if k == 0 {
        Seq::empty()
    } else {
        blanks((k - 1) as nat) + "   "@
    }
}

/// The whole calendar of a month named `name` in `year`, whose first day
/// falls on weekday `start` (Sunday is 0) and which has `days` days.
pub open spec fn calendar_text(name: Seq<char>, year: int, start: nat, days: nat) -> Seq<char> {
    "\n   "@ + name + " "@ + signed_dec(year) + "\n"@ + "Su Mo Tu We Th Fr Sa\n"@ + blanks(start)
        + day_cells(start, days, days)
}

/// A day number two characters wide.
fn padded_day(d: u32) -> (r: String)
    ensures
        r@ == padded(d as nat),
{
    if d < 10 {
        proof {
            reveal_strlit(" ");
        }
        cat(" ", decimal(d as u64).as_str())
    } else {
        decimal(d as u64)
    }
}

/// Lays out the calendar of a month named `name` in `year`, whose first day
/// falls on weekday `start` (Sunday is 0) and which has `days` days.
pub fn calendar_layout(name: &str, year: i32, start: u32, days: u32) -> (r: String)
    requires
        start < 7,
    ensures
        r@ == calendar_text(name@, year as int, start as nat, days as nat),
{
    let mut out = String::from_str("\n   ");
    out.append(name);
    out.append(" ");
    out.append(signed_decimal(year).as_str());
    out.append("\n");
    out.append("Su Mo Tu We Th Fr Sa\n");
    let ghost head = out@;
    let mut k: u32 = 0;
    while k < start
        invariant
            k <= start,
            out@ == head + blanks(k as nat),
        decreases start - k,
    {
        out.append("   ");
        k = k + 1;
    }
    let ghost lead = out@;
    let mut d: u32 = 0;
    while d < days
        invariant
            start < 7,
            d <= days,
            out@ == lead + day_cells(start as nat, days as nat, d as nat),
        decreases days - d,
    {
        d = d + 1;
        out.append(padded_day(d).as_str());
        out.append(" ");
        if (start as u64 + d as u64) % 7 == 0 || d == days {
            out.append("\n");
        }
        proof {
            reveal_strlit(" ");
            reveal_strlit("\n");
        }
    }
    out
}

/// The number of days of month `month` of `year`, found by asking the
/// calendar which of the last days exist.
fn month_length(year: i32, month: u32) -> (r: u32)
    requires
        valid_date(year as int, month as int, 1),
    ensures
        r as nat == days_in(year as int, month as int),
{
    if NaiveDate::from_ymd_opt(year, month, 31).is_some() {
        31
    } else if NaiveDate::from_ymd_opt(year, month, 30).is_some() {
        30
    } else if NaiveDate::from_ymd_opt(year, month, 29).is_some() {
        29
    } else {
        28
    }
}

/// The calendar of `month` in `year`, or none where the calendar has no such
/// month: titled with the month's name and the year, its first row starting
/// on the weekday of the first day, one cell for each day of the month.
pub fn generate_calendar(year: i32, month: u32) -> (r: Option<String>)
    ensures
        r is Some <==> (1 <= month <= 12 && MIN_YEAR <= year <= MAX_YEAR),
        r matches Some(t) ==> t@ == calendar_text(
            month_name_of(month as int),
            year as int,
            weekday_of(year as int, month as int, 1) as nat,
            days_in(year as int, month as int),
        ),
{
    if month < 1 || month > 12 || year < MIN_YEAR || year > MAX_YEAR {
        return None;
    }
    let days = month_length(year, month);
    let start = first_weekday(year, month);
    let name = month_name(month);
    Some(calendar_layout(name.as_str(), year, start, days))
}

/// What `show_calendar` says, and the calendar it answers with, given the
/// month's name, its year and its calendar.
pub fn show_calendar(name: &str, year: i32, calendar: String) -> (r: Announcement)
    ensures
        r.speech@ == "Here is the calendar for "@ + name@ + " "@ + signed_dec(year as int),
        r.reply@ == calendar@,
{
    let mut speech = cat("Here is the calendar for ", name);
    speech.append(" ");
    speech.append(signed_decimal(year).as_str());
    proof {
        reveal_strlit(" ");
    }
    Announcement { speech, reply: calendar }
}

} // verus!

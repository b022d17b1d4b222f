//! Calendar date and time of a camera's clock, its text, and the check of it
//! against the system clock.

use vstd::prelude::*;
use chrono::{Datelike, Timelike};
use crate::text::{decimal, digit_char};

verus! {

/// A date and time as a camera reports it: every field a signed integer.
#[derive(Debug, Clone, Copy)]
pub struct DateTimeFields {
    pub year: i32,
    pub month: i32,
    pub day: i32,
    pub hour: i32,
    pub minute: i32,
    pub second: i32,
}

/// A calendar date and time of day, the parts of a `chrono::NaiveDateTime`.
#[derive(Debug, Clone, Copy)]
pub struct CivilDateTime {
    pub year: i32,
    pub month: u32,
    pub day: u32,
    pub hour: u32,
    pub minute: u32,
    pub second: u32,
}

/// A reported field as an unsigned number: itself when not negative, else 0.
pub open spec fn unsigned_or_zero(x: i32) -> u32 {
    if x >= 0 {
        x as u32
    } else {
        0
    }
}

/// The calendar parts of a reported date and time: a negative month, day,
/// hour, minute or second becomes 0.
pub open spec fn civil_of(datetime: DateTimeFields) -> CivilDateTime {
    CivilDateTime {
        year: datetime.year,
        month: unsigned_or_zero(datetime.month),
        day: unsigned_or_zero(datetime.day),
        hour: unsigned_or_zero(datetime.hour),
        minute: unsigned_or_zero(datetime.minute),
        second: unsigned_or_zero(datetime.second),
    }
}

/// Converts a reported date and time into calendar parts; a negative month,
/// day, hour, minute or second becomes 0.
pub fn datetime_to_naive(datetime: &DateTimeFields) -> (res: CivilDateTime)
    ensures
        res == civil_of(*datetime),
        res.year == datetime.year,
        res.month == unsigned_or_zero(datetime.month),
        res.day == unsigned_or_zero(datetime.day),
        res.hour == unsigned_or_zero(datetime.hour),
        res.minute == unsigned_or_zero(datetime.minute),
        res.second == unsigned_or_zero(datetime.second),
{
    CivilDateTime {
        year: datetime.year,
        month: u32_or_zero(datetime.month),
        day: u32_or_zero(datetime.day),
        hour: u32_or_zero(datetime.hour),
        minute: u32_or_zero(datetime.minute),
        second: u32_or_zero(datetime.second),
    }
}

fn u32_or_zero(x: i32) -> (res: u32)
    ensures
        res == unsigned_or_zero(x),
{
    if x >= 0 {
        x as u32
    } else {
        0
    }
}

/// The smallest year of a `chrono::NaiveDate`.
pub open spec fn min_year() -> int {
    -262143
}

/// The largest year of a `chrono::NaiveDate`.
pub open spec fn max_year() -> int {
    262142
}

/// Whether `year` is a leap year of the proleptic Gregorian calendar.
pub open spec fn is_leap_year(year: int) -> bool {
    (year % 4 == 0 && year % 100 != 0) || year % 400 == 0
}

/// The number of days of `month` (1 to 12) in `year`.
pub open spec fn days_in_month(year: int, month: int) -> int {
    if month == 2 {
        if is_leap_year(year) {
            29
        } else {
            28
        }
    } else if month == 4 || month == 6 || month == 9 || month == 11 {
        30
    } else {
        31
    }
}

/// The lengths of the months of the Gregorian calendar: 31 days for
/// January, March, May, July, August, October and December, 30 for April,
/// June, September and November, and for February 29 in a year divisible
/// by 4 but not by 100, or divisible by 400, else 28.
pub proof fn lemma_month_lengths(year: int)
    ensures
        days_in_month(year, 1) == 31,
        days_in_month(year, 2) == if (year % 4 == 0 && year % 100 != 0) || year % 400 == 0 {
            29int
        } else {
            28int
        },
        days_in_month(year, 3) == 31,
        days_in_month(year, 4) == 30,
        days_in_month(year, 5) == 31,
        days_in_month(year, 6) == 30,
        days_in_month(year, 7) == 31,
        days_in_month(year, 8) == 31,
        days_in_month(year, 9) == 30,
        days_in_month(year, 10) == 31,
        days_in_month(year, 11) == 30,
        days_in_month(year, 12) == 31,
{
}

impl CivilDateTime {
    /// Whether the parts name an existing day of the range of
    /// `chrono::NaiveDate` and a time of day without leap second.
    pub open spec fn valid(&self) -> bool {
        &&& min_year() <= self.year <= max_year()
        &&& 1 <= self.month <= 12
        &&& 1 <= self.day <= days_in_month(self.year as int, self.month as int)
        &&& self.hour < 24
        &&& self.minute < 60
        &&& self.second < 60
    }

    /// Tests `valid`.
    pub fn is_valid(&self) -> (res: bool)
        ensures
            res == self.valid(),
    {
        if self.year < -262143 || self.year > 262142 {
            return false;
        }
        if self.month < 1 || self.month > 12 {
            return false;
        }
        let dim = days_in_month_exec(self.year, self.month);
        self.day >= 1 && self.day <= dim && self.hour < 24 && self.minute < 60 && self.second < 60
    }
}

fn is_leap_year_exec(year: i32) -> (res: bool)
    requires
        min_year() <= year <= max_year(),
    ensures
        res == is_leap_year(year as int),
{
    let shifted: u32 = (year + 400000) as u32;
    proof {
        let y = year as int;
        let s = shifted as int;
        assert(s == y + 400 * 1000);
        vstd::arithmetic::div_mod::lemma_mod_multiples_vanish(1000, y, 400);
        vstd::arithmetic::div_mod::lemma_mod_multiples_vanish(100000, y, 4);
        vstd::arithmetic::div_mod::lemma_mod_multiples_vanish(4000, y, 100);
    }
    (shifted % 4 == 0 && shifted % 100 != 0) || shifted % 400 == 0
}

fn days_in_month_exec(year: i32, month: u32) -> (res: u32)
    requires
        min_year() <= year <= max_year(),
        1 <= month <= 12,
    ensures
        res == days_in_month(year as int, month as int),
{
    if month == 2 {
        if is_leap_year_exec(year) {
            29
        } else {
            28
        }
    } else if month == 4 || month == 6 || month == 9 || month == 11 {
        30
    } else {
        31
    }
}

/// A date and time is valid exactly when its year lies in chrono's range
/// (-262143 to 262142), its month is 1 to 12, its day is 1 to the length of
/// that month in that year, and its time of day has hour below 24, minute
/// and second below 60.
pub proof fn lemma_valid_exactly(dt: CivilDateTime)
    ensures
        dt.valid() <==> {
            &&& -262143 <= dt.year <= 262142
            &&& 1 <= dt.month <= 12
            &&& 1 <= dt.day <= days_in_month(dt.year as int, dt.month as int)
            &&& dt.hour < 24
            &&& dt.minute < 60
            &&& dt.second < 60
        },
{
}

/// Two decimal digits of `n` (below 100), with a leading zero.
pub open spec fn two_digits(n: nat) -> Seq<char> {
    seq![digit_char(n / 10), digit_char(n % 10)]
}

/// The decimal digits of `n`, padded with leading zeros to four.
pub open spec fn four_digits(n: nat) -> Seq<char> {
    let d = decimal(n);
    if d.len() >= 4 {
        d
    } else {
        Seq::new((4 - d.len()) as nat, |i: int| '0') + d
    }
}

/// The year as chrono writes it: four digits within 0 to 9999, otherwise a
/// sign followed by at least four digits.
pub open spec fn year_text(year: int) -> Seq<char> {
    if 0 <= year <= 9999 {
        two_digits((year / 100) as nat) + two_digits((year % 100) as nat)
    } else if year < 0 {
        seq!['-'] + four_digits((-year) as nat)
    } else {
        seq!['+'] + four_digits(year as nat)
    }
}

/// The text of a date and time, `YYYY-MM-DD HH:MM:SS`.
pub open spec fn civil_text(dt: CivilDateTime) -> Seq<char> {
    year_text(dt.year as int) + seq!['-'] + two_digits(dt.month as nat) + seq!['-'] + two_digits(
        dt.day as nat,
    ) + seq![' '] + two_digits(dt.hour as nat) + seq![':'] + two_digits(dt.minute as nat) + seq![
        ':',
    ] + two_digits(dt.second as nat)
}

/// Calls `chrono::NaiveDate::from_ymd(..).and_hms(..)` and renders the
/// result with its `Display` impl. The contract claims the text that the
/// source of chrono's `Display` for `NaiveDateTime` (which writes the date
/// as in `Debug`, a space, then the time) gives for a date and time without
/// fraction of a second. The calls panic on a date or time that does not
/// exist, which `requires` leaves out.
#[verifier::external_body]
#[allow(deprecated)]
pub(crate) fn naive_datetime_text(dt: &CivilDateTime) -> (res: String)
    requires
        dt.valid(),
    ensures
        res@ == civil_text(*dt),
{
    chrono::NaiveDate::from_ymd(dt.year, dt.month, dt.day).and_hms(
        dt.hour,
        dt.minute,
        dt.second,
    ).to_string()
}

/// The parts of a date and time as a tuple: year, month, day, hour, minute,
/// second.
pub open spec fn parts(dt: CivilDateTime) -> (i32, u32, u32, u32, u32, u32) {
    (dt.year, dt.month, dt.day, dt.hour, dt.minute, dt.second)
}

/// What `chrono::NaiveDateTime::signed_duration_since(..).num_seconds()`
/// returns for the date and time `a` (whole seconds) and the date and time
/// `b` with `b_nanos` nanoseconds: the whole seconds of `a - b`.
pub uninterp spec fn chrono_seconds_between(
    a: (i32, u32, u32, u32, u32, u32),
    b: (i32, u32, u32, u32, u32, u32),
    b_nanos: u32,
) -> i64;

/// Calls `chrono::Utc::now().naive_utc()` and returns its calendar parts and
/// nanoseconds. The reading depends on the system clock; the contract claims
/// only what holds of every `NaiveDateTime` that `Utc::now` makes: an
/// existing day of chrono's range, a time of day with second below 60, and
/// a fraction below one second (`Utc::now` takes it from
/// `Duration::subsec_nanos`). `Utc::now` panics when the system clock reads
/// a time before 1970 or beyond chrono's range; that depends on no argument,
/// so no `requires` names it.
#[verifier::external_body]
pub(crate) fn utc_now() -> (res: (CivilDateTime, u32))
    ensures
        res.0.valid(),
        res.1 < 1_000_000_000,
{
    let now = chrono::Utc::now().naive_utc();
    (
        CivilDateTime {
            year: now.year(),
            month: now.month(),
            day: now.day(),
            hour: now.hour(),
            minute: now.minute(),
            second: now.second(),
        },
        now.nanosecond(),
    )
}

/// Calls `chrono::NaiveDateTime::signed_duration_since` on `a` and `b` (with
/// `b_nanos` nanoseconds), built with `NaiveDate::from_ymd(..).and_hms(..)`
/// and `and_hms_nano(..)`, and returns `TimeDelta::num_seconds` of the
/// result. The contract claims that the result is the one named by
/// `chrono_seconds_between` for these parts. The construction panics on a
/// date or time that does not exist, which `requires` leaves out.
#[verifier::external_body]
#[allow(deprecated)]
pub(crate) fn seconds_between(a: &CivilDateTime, b: &CivilDateTime, b_nanos: u32) -> (res: i64)
    requires
        a.valid(),
        b.valid(),
        b_nanos < 1_000_000_000,
    ensures
        res == chrono_seconds_between(parts(*a), parts(*b), b_nanos),
{
    let earlier = chrono::NaiveDate::from_ymd(b.year, b.month, b.day).and_hms_nano(
        b.hour,
        b.minute,
        b.second,
        b_nanos,
    );
    chrono::NaiveDate::from_ymd(a.year, a.month, a.day).and_hms(
        a.hour,
        a.minute,
        a.second,
    ).signed_duration_since(earlier).num_seconds()
}

/// Whether a camera clock that is `offset_secs` seconds ahead of the system
/// clock (behind, when negative) is off by more than 15 seconds.
pub fn clock_mismatch(offset_secs: i64) -> (res: bool)
    ensures
        res == (offset_secs > 15 || offset_secs < -15),
{
    offset_secs > 15 || offset_secs < -15
}

} // verus!

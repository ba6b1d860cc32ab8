//! Calendar dates, date-times, and the provider's text formats.
//!
//! The provider writes date-times as `YYYY-MM-DD HH:MM` (24-hour clock, no
//! seconds, no timezone) and dates as `YYYY-MM-DD`. Parsing rejects any
//! deviation from these exact shapes: wrong separators, missing components,
//! or components outside their calendar range. Leap days follow the
//! standard Gregorian rules.

use vstd::prelude::*;

use crate::text::digit_char;
use crate::text::push_digit;

verus! {

/// Error returned when a date or date-time string does not have the exact
/// provider format or names a day that does not exist in the calendar.
#[derive(Clone, Copy, Debug, PartialEq, Eq, Structural)]
pub struct TimestampParseError;

/// A calendar date, year 0 through 9999.
#[derive(Clone, Copy, Debug, PartialEq, Eq, Structural)]
pub struct Date {
    pub year: u16,
    pub month: u8,
    pub day: u8,
}

/// A calendar date with a time of day (minute precision, no timezone).
#[derive(Clone, Copy, Debug, PartialEq, Eq, Structural)]
pub struct DateTime {
    pub date: Date,
    pub hour: u8,
    pub minute: u8,
}

/// A year has 366 days when it is divisible by 4 but not by 100, or by 400.
pub open spec fn is_leap_year(y: int) -> bool {
    (y % 4 == 0 && y % 100 != 0) || y % 400 == 0
}

/// Number of days in the given month of the given year.
pub open spec fn days_in_month(y: int, m: int) -> int {
    if m == 2 {
        if is_leap_year(y) {
            29
        } else {
            28
        }
    } else if m == 4 || m == 6 || m == 9 || m == 11 {
        30
    } else {
        31
    }
}

/// The year/month/day triple names a day of the proleptic Gregorian
/// calendar that the four-digit year format can express.
pub open spec fn valid_ymd(y: int, m: int, d: int) -> bool {
    0 <= y <= 9999 && 1 <= m <= 12 && 1 <= d <= days_in_month(y, m)
}

pub open spec fn valid_hm(h: int, mi: int) -> bool {
    0 <= h <= 23 && 0 <= mi <= 59
}

impl Date {
    /// The fields name a real calendar day.
    pub open spec fn wf(self) -> bool {
        valid_ymd(self.year as int, self.month as int, self.day as int)
    }

    /// Builds a date, or `None` when the triple is not a real calendar day.
    pub fn from_ymd_opt(year: u16, month: u8, day: u8) -> (r: Option<Date>)
        ensures
            r is Some <==> valid_ymd(year as int, month as int, day as int),
            r matches Some(d) ==> d == (Date { year, month, day }) && d.wf(),
    {
        let dim: u8 = if month == 2 {
            if (year % 4 == 0 && year % 100 != 0) || year % 400 == 0 {
                29
            } else {
                28
            }
        } else if month == 4 || month == 6 || month == 9 || month == 11 {
            30
        } else {
            31
        };
        if year <= 9999 && 1 <= month && month <= 12 && 1 <= day && day <= dim {
            Some(Date { year, month, day })
        } else {
            None
        }
    }

    /// Whether the fields name a real calendar day; what [`Date::wf`]
    /// says, decided at run time.
    pub fn is_valid(&self) -> (r: bool)
        ensures
            r == self.wf(),
    {
        Date::from_ymd_opt(self.year, self.month, self.day).is_some()
    }

    pub fn year(&self) -> (r: u16)
        ensures
            r == self.year,
    {
        self.year
    }

    pub fn month(&self) -> (r: u8)
        ensures
            r == self.month,
    {
        self.month
    }

    pub fn day(&self) -> (r: u8)
        ensures
            r == self.day,
    {
        self.day
    }
}

impl DateTime {
    /// The date is a real calendar day and the time is on the 24-hour clock.
    pub open spec fn wf(self) -> bool {
        self.date.wf() && valid_hm(self.hour as int, self.minute as int)
    }

    pub fn date(&self) -> (r: Date)
        ensures
            r == self.date,
    {
        self.date
    }

    pub fn year(&self) -> (r: u16)
        ensures
            r == self.date.year,
    {
        self.date.year
    }

    pub fn month(&self) -> (r: u8)
        ensures
            r == self.date.month,
    {
        self.date.month
    }

    pub fn day(&self) -> (r: u8)
        ensures
            r == self.date.day,
    {
        self.date.day
    }

    pub fn hour(&self) -> (r: u8)
        ensures
            r == self.hour,
    {
        self.hour
    }

    pub fn minute(&self) -> (r: u8)
        ensures
            r == self.minute,
    {
        self.minute
    }
}

pub open spec fn is_digit(c: char) -> bool {
    '0' as u32 <= c as u32 <= '9' as u32
}

pub open spec fn digit_val(c: char) -> int {
    c as u32 - '0' as u32
}

/// The first ten characters spell a date as `YYYY-MM-DD`.
pub open spec fn date_part_wf(s: Seq<char>) -> bool {
    &&& s.len() >= 10
    &&& is_digit(s[0])
    &&& is_digit(s[1])
    &&& is_digit(s[2])
    &&& is_digit(s[3])
    &&& s[4] == '-'
    &&& is_digit(s[5])
    &&& is_digit(s[6])
    &&& s[7] == '-'
    &&& is_digit(s[8])
    &&& is_digit(s[9])
}

pub open spec fn text_year(s: Seq<char>) -> int {
    digit_val(s[0]) * 1000 + digit_val(s[1]) * 100 + digit_val(s[2]) * 10 + digit_val(s[3])
}

pub open spec fn text_month(s: Seq<char>) -> int {
    digit_val(s[5]) * 10 + digit_val(s[6])
}

pub open spec fn text_day(s: Seq<char>) -> int {
    digit_val(s[8]) * 10 + digit_val(s[9])
}

/// Characters 11 through 15 spell a time as `HH:MM`.
pub open spec fn time_part_wf(s: Seq<char>) -> bool {
    &&& s.len() >= 16
    &&& s[10] == ' '
    &&& is_digit(s[11])
    &&& is_digit(s[12])
    &&& s[13] == ':'
    &&& is_digit(s[14])
    &&& is_digit(s[15])
}

pub open spec fn text_hour(s: Seq<char>) -> int {
    digit_val(s[11]) * 10 + digit_val(s[12])
}

pub open spec fn text_minute(s: Seq<char>) -> int {
    digit_val(s[14]) * 10 + digit_val(s[15])
}

/// The whole text is exactly `YYYY-MM-DD` and names a real calendar day.
pub open spec fn date_text_valid(s: Seq<char>) -> bool {
    &&& s.len() == 10
    &&& date_part_wf(s)
    &&& valid_ymd(text_year(s), text_month(s), text_day(s))
}

/// The whole text is exactly `YYYY-MM-DD HH:MM`, names a real calendar day,
/// and carries a time on the 24-hour clock.
pub open spec fn datetime_text_valid(s: Seq<char>) -> bool {
    &&& s.len() == 16
    &&& date_part_wf(s)
    &&& time_part_wf(s)
    &&& valid_ymd(text_year(s), text_month(s), text_day(s))
    &&& valid_hm(text_hour(s), text_minute(s))
}

/// The date named by a text whose first ten characters are `YYYY-MM-DD`.
pub open spec fn date_of_text(s: Seq<char>) -> Date {
    Date {
        year: text_year(s) as u16,
        month: text_month(s) as u8,
        day: text_day(s) as u8,
    }
}

/// The date-time named by a `YYYY-MM-DD HH:MM` text.
pub open spec fn datetime_of_text(s: Seq<char>) -> DateTime {
    DateTime { date: date_of_text(s), hour: text_hour(s) as u8, minute: text_minute(s) as u8 }
}

/// The numeric value of a decimal digit character, or `None` for any other
/// character.
fn digit_of(c: char) -> (r: Option<u32>)
    ensures
        r is Some <==> is_digit(c),
        r matches Some(v) ==> v == digit_val(c) && v <= 9,
{
    let u = c as u32;
    if 48 <= u && u <= 57 {
        Some(u - 48)
    } else {
        None
    }
}

/// Parses a date in the provider's exact `YYYY-MM-DD` format.
///
/// Succeeds exactly on texts of that shape that name a real calendar day;
/// every other input, including the empty string, is rejected.
pub fn parse_date(s: &str) -> (r: Result<Date, TimestampParseError>)
    ensures
        r is Ok <==> date_text_valid(s@),
        r matches Ok(d) ==> d == date_of_text(s@) && d.wf(),
{
    if s.unicode_len() != 10 {
        return Err(TimestampParseError);
    }
    if s.get_char(4) != '-' || s.get_char(7) != '-' {
        return Err(TimestampParseError);
    }
    let y0 = match digit_of(s.get_char(0)) {
        Some(v) => v,
        None => return Err(TimestampParseError),
    };
    let y1 = match digit_of(s.get_char(1)) {
        Some(v) => v,
        None => return Err(TimestampParseError),
    };
    let y2 = match digit_of(s.get_char(2)) {
        Some(v) => v,
        None => return Err(TimestampParseError),
    };
    let y3 = match digit_of(s.get_char(3)) {
        Some(v) => v,
        None => return Err(TimestampParseError),
    };
    let m0 = match digit_of(s.get_char(5)) {
        Some(v) => v,
        None => return Err(TimestampParseError),
    };
    let m1 = match digit_of(s.get_char(6)) {
        Some(v) => v,
        None => return Err(TimestampParseError),
    };
    let d0 = match digit_of(s.get_char(8)) {
        Some(v) => v,
        None => return Err(TimestampParseError),
    };
    let d1 = match digit_of(s.get_char(9)) {
        Some(v) => v,
        None => return Err(TimestampParseError),
    };
    let year: u32 = y0 * 1000 + y1 * 100 + y2 * 10 + y3;
    let month: u32 = m0 * 10 + m1;
    let day: u32 = d0 * 10 + d1;
    match Date::from_ymd_opt(year as u16, month as u8, day as u8) {
        Some(d) => Ok(d),
        None => Err(TimestampParseError),
    }
}

/// Parses a date-time in the provider's exact `YYYY-MM-DD HH:MM` format.
///
/// Succeeds exactly on texts of that shape whose date names a real calendar
/// day and whose time lies between 00:00 and 23:59; every other input,
/// including the empty string, is rejected.
pub fn parse_date_time(s: &str) -> (r: Result<DateTime, TimestampParseError>)
    ensures
        r is Ok <==> datetime_text_valid(s@),
        r matches Ok(dt) ==> dt == datetime_of_text(s@) && dt.wf(),
{
    if s.unicode_len() != 16 {
        return Err(TimestampParseError);
    }
    if s.get_char(4) != '-' || s.get_char(7) != '-' || s.get_char(10) != ' ' || s.get_char(13)
        != ':' {
        return Err(TimestampParseError);
    }
    let y0 = match digit_of(s.get_char(0)) {
        Some(v) => v,
        None => return Err(TimestampParseError),
    };
    let y1 = match digit_of(s.get_char(1)) {
        Some(v) => v,
        None => return Err(TimestampParseError),
    };
    let y2 = match digit_of(s.get_char(2)) {
        Some(v) => v,
        None => return Err(TimestampParseError),
    };
    let y3 = match digit_of(s.get_char(3)) {
        Some(v) => v,
        None => return Err(TimestampParseError),
    };
    let m0 = match digit_of(s.get_char(5)) {
        Some(v) => v,
        None => return Err(TimestampParseError),
    };
    let m1 = match digit_of(s.get_char(6)) {
        Some(v) => v,
        None => return Err(TimestampParseError),
    };
    let d0 = match digit_of(s.get_char(8)) {
        Some(v) => v,
        None => return Err(TimestampParseError),
    };
    let d1 = match digit_of(s.get_char(9)) {
        Some(v) => v,
        None => return Err(TimestampParseError),
    };
    let h0 = match digit_of(s.get_char(11)) {
        Some(v) => v,
        None => return Err(TimestampParseError),
    };
    let h1 = match digit_of(s.get_char(12)) {
        Some(v) => v,
        None => return Err(TimestampParseError),
    };
    let n0 = match digit_of(s.get_char(14)) {
        Some(v) => v,
        None => return Err(TimestampParseError),
    };
    let n1 = match digit_of(s.get_char(15)) {
        Some(v) => v,
        None => return Err(TimestampParseError),
    };
    let year: u32 = y0 * 1000 + y1 * 100 + y2 * 10 + y3;
    let month: u32 = m0 * 10 + m1;
    let day: u32 = d0 * 10 + d1;
    let hour: u32 = h0 * 10 + h1;
    let minute: u32 = n0 * 10 + n1;
    let date = match Date::from_ymd_opt(year as u16, month as u8, day as u8) {
        Some(d) => d,
        None => return Err(TimestampParseError),
    };
    if hour <= 23 && minute <= 59 {
        Ok(DateTime { date, hour: hour as u8, minute: minute as u8 })
    } else {
        Err(TimestampParseError)
    }
}

/// The eight characters `YYYYMMDD` spelling a date with no separators:
/// the shape the provider's query parameters use, distinct from the
/// response's own `YYYY-MM-DD` format.
pub open spec fn compact_date_text(d: Date) -> Seq<char> {
    seq![
        digit_char(d.year as int / 1000),
        digit_char((d.year as int / 100) % 10),
        digit_char((d.year as int / 10) % 10),
        digit_char(d.year as int % 10),
        digit_char(d.month as int / 10),
        digit_char(d.month as int % 10),
        digit_char(d.day as int / 10),
        digit_char(d.day as int % 10),
    ]
}

/// Writes a date as `YYYYMMDD` with no separators.
pub fn format_compact_date(d: &Date) -> (r: String)
    requires
        d.wf(),
    ensures
        r@ == compact_date_text(*d),
{
    let mut out = String::new();
    push_digit(&mut out, d.year / 1000);
    push_digit(&mut out, (d.year / 100) % 10);
    push_digit(&mut out, (d.year / 10) % 10);
    push_digit(&mut out, d.year % 10);
    push_digit(&mut out, (d.month / 10) as u16);
    push_digit(&mut out, (d.month % 10) as u16);
    push_digit(&mut out, (d.day / 10) as u16);
    push_digit(&mut out, (d.day % 10) as u16);
    proof {
        assert(out@ =~= compact_date_text(*d));
    }
    out
}

/// The text `YYYY-MM-DD` that writes a date.
pub open spec fn date_text(d: Date) -> Seq<char> {
    seq![
        digit_char(d.year as int / 1000),
        digit_char((d.year as int / 100) % 10),
        digit_char((d.year as int / 10) % 10),
        digit_char(d.year as int % 10),
        '-',
        digit_char(d.month as int / 10),
        digit_char(d.month as int % 10),
        '-',
        digit_char(d.day as int / 10),
        digit_char(d.day as int % 10),
    ]
}

/// The text `YYYY-MM-DD HH:MM` that writes a date-time.
pub open spec fn datetime_text(dt: DateTime) -> Seq<char> {
    date_text(dt.date) + seq![
        ' ',
        digit_char(dt.hour as int / 10),
        digit_char(dt.hour as int % 10),
        ':',
        digit_char(dt.minute as int / 10),
        digit_char(dt.minute as int % 10),
    ]
}

/// The character of a decimal digit reads back as that digit.
proof fn lemma_digit_char_val(v: int)
    requires
        0 <= v <= 9,
    ensures
        is_digit(digit_char(v)),
        digit_val(digit_char(v)) == v,
{
}

/// A number up to 9999 is recovered from its four decimal digits.
proof fn lemma_four_digits(y: int)
    requires
        0 <= y <= 9999,
    ensures
        0 <= y / 1000 <= 9,
        0 <= (y / 100) % 10 <= 9,
        0 <= (y / 10) % 10 <= 9,
        0 <= y % 10 <= 9,
        y == (y / 1000) * 1000 + ((y / 100) % 10) * 100 + ((y / 10) % 10) * 10 + y % 10,
{
    vstd::arithmetic::div_mod::lemma_fundamental_div_mod(y, 10);
    vstd::arithmetic::div_mod::lemma_fundamental_div_mod(y / 10, 10);
    vstd::arithmetic::div_mod::lemma_fundamental_div_mod(y / 100, 10);
    vstd::arithmetic::div_mod::lemma_fundamental_div_mod(y, 1000);
    vstd::arithmetic::div_mod::lemma_div_denominator(y, 10, 10);
    vstd::arithmetic::div_mod::lemma_div_denominator(y, 100, 10);
}

/// A number up to 99 is recovered from its two decimal digits.
proof fn lemma_two_digits(m: int)
    requires
        0 <= m <= 99,
    ensures
        0 <= m / 10 <= 9,
        0 <= m % 10 <= 9,
        m == (m / 10) * 10 + m % 10,
{
    vstd::arithmetic::div_mod::lemma_fundamental_div_mod(m, 10);
}

/// Writing a date as `YYYY-MM-DD` and parsing it back yields the same
/// date: the writer always produces a text the parser accepts, and the
/// parser recovers the year, month and day exactly.
pub proof fn lemma_date_text_round_trip(d: Date)
    requires
        d.wf(),
    ensures
        date_text_valid(date_text(d)),
        date_of_text(date_text(d)) == d,
{
    let s = date_text(d);
    let y = d.year as int;
    let m = d.month as int;
    let dd = d.day as int;
    lemma_four_digits(y);
    lemma_two_digits(m);
    lemma_two_digits(dd);
    lemma_digit_char_val(y / 1000);
    lemma_digit_char_val((y / 100) % 10);
    lemma_digit_char_val((y / 10) % 10);
    lemma_digit_char_val(y % 10);
    lemma_digit_char_val(m / 10);
    lemma_digit_char_val(m % 10);
    lemma_digit_char_val(dd / 10);
    lemma_digit_char_val(dd % 10);
    assert(text_year(s) == y);
    assert(text_month(s) == m);
    assert(text_day(s) == dd);
}

/// Writing a date-time as `YYYY-MM-DD HH:MM` and parsing it back yields
/// the same date-time: for every well-formed value the parser succeeds
/// on the written text and recovers the same year, month, day, hour and
/// minute.
pub proof fn lemma_datetime_text_round_trip(dt: DateTime)
    requires
        dt.wf(),
    ensures
        datetime_text_valid(datetime_text(dt)),
        datetime_of_text(datetime_text(dt)) == dt,
{
    let s = datetime_text(dt);
    let h = dt.hour as int;
    let mi = dt.minute as int;
    lemma_date_text_round_trip(dt.date);
    lemma_two_digits(h);
    lemma_two_digits(mi);
    lemma_digit_char_val(h / 10);
    lemma_digit_char_val(h % 10);
    lemma_digit_char_val(mi / 10);
    lemma_digit_char_val(mi % 10);
    assert forall|k: int| 0 <= k < 10 implies s[k] == date_text(dt.date)[k] by {}
    assert(text_year(s) == text_year(date_text(dt.date)));
    assert(text_month(s) == text_month(date_text(dt.date)));
    assert(text_day(s) == text_day(date_text(dt.date)));
    assert(text_hour(s) == h);
    assert(text_minute(s) == mi);
}

/// Parses a provider timestamp; the provider's record timestamps use the
/// `YYYY-MM-DD HH:MM` date-time format.
pub fn parse_n3rgy_timestamp(timestamp: &str) -> (r: Result<DateTime, TimestampParseError>)
    ensures
        r is Ok <==> datetime_text_valid(timestamp@),
        r matches Ok(dt) ==> dt == datetime_of_text(timestamp@) && dt.wf(),
{
    parse_date_time(timestamp)
}

} // verus!

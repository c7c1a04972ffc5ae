//! The crate's own calendar model and the parser for the date strings the
//! platform renders.
//!
//! A `DateTime` holds plain year, month, day, hour and minute values, so that
//! deadline comparisons and date arithmetic are verified instead of deferred
//! to an opaque library type. The platform renders dates either as a relative
//! word (today, yesterday, tomorrow, in German or English) or as
//! `"D. Mon YYYY"`, always followed by a comma and a clock time `"H:MM"`.

use vstd::prelude::*;

use crate::error::ParseError;
use crate::text::{
    all_digits, dec_value, digit_run_end, digit_run_end_exec, find_index_from, first_index_from,
    is_digit, lemma_digit_run_end, match_at, parse_decimal_u32, str_eq, str_match_at,
    substring_string, trim_seq, trim_str,
};

verus! {

/// A calendar date with a clock time, in the platform's local time zone.
#[derive(Debug, Clone, Copy, PartialEq, Eq, Structural)]
pub struct DateTime {
    pub year: i32,
    pub month: u32,
    pub day: u32,
    pub hour: u32,
    pub minute: u32,
}

/// Relies on chrono::Local::now and its date and time accessors: the current
/// civil date and time in the machine's local zone. chrono documents that
/// years stay within a few hundred thousand, months within 1 to 12, days
/// within 1 to 31, hours below 24 and minutes below 60.
#[verifier::external_body]
pub(crate) fn now_local() -> (r: DateTime)
    ensures
        -262200 <= r.year <= 262200,
        1 <= r.month <= 12,
        1 <= r.day <= 31,
        r.hour < 24,
        r.minute < 60,
{
    let now = chrono::Local::now();
    DateTime {
        year: chrono::Datelike::year(&now),
        month: chrono::Datelike::month(&now),
        day: chrono::Datelike::day(&now),
        hour: chrono::Timelike::hour(&now),
        minute: chrono::Timelike::minute(&now),
    }
}

/// A leap year of the Gregorian calendar.
pub open spec fn is_leap_year(y: int) -> bool {
    y % 4 == 0 && (y % 100 != 0 || y % 400 == 0)
}

/// Days in month `m` of year `y`; `0` for a month outside the calendar.
pub open spec fn days_in_month(y: int, m: int) -> int {
    if m == 1 || m == 3 || m == 5 || m == 7 || m == 8 || m == 10 || m == 12 {
        31
    } else if m == 4 || m == 6 || m == 9 || m == 11 {
        30
    } else if m == 2 {
        if is_leap_year(y) {
            29
        } else {
            28
        }
    } else {
        0
    }
}

/// Days in month `m` of year `y`.
pub fn days_in_month_exec(y: i32, m: u32) -> (r: u32)
    ensures
        r == days_in_month(y as int, m as int),
{
    if m == 1 || m == 3 || m == 5 || m == 7 || m == 8 || m == 10 || m == 12 {
        31
    } else if m == 4 || m == 6 || m == 9 || m == 11 {
        30
    } else if m == 2 {
        if y % 4 == 0 && (y % 100 != 0 || y % 400 == 0) {
            29
        } else {
            28
        }
    } else {
        0
    }
}

/// A date the crate supports: within the calendar and within years 0 to 9999.
pub open spec fn valid_date(y: int, m: int, d: int) -> bool {
    &&& 0 <= y <= 9999
    &&& 1 <= m <= 12
    &&& 1 <= d <= days_in_month(y, m)
}

/// Whether `(y, m, d)` is a supported calendar date.
pub fn is_valid_date(y: i32, m: u32, d: u32) -> (r: bool)
    ensures
        r == valid_date(y as int, m as int, d as int),
{
    0 <= y && y <= 9999 && 1 <= m && m <= 12 && 1 <= d && d <= days_in_month_exec(y, m)
}

/// The day after `(y, m, d)`.
pub open spec fn next_day_spec(y: int, m: int, d: int) -> (int, int, int) {
    if d < days_in_month(y, m) {
        (y, m, d + 1)
    } else if m < 12 {
        (y, m + 1, 1)
    } else {
        (y + 1, 1, 1)
    }
}

/// The day before `(y, m, d)`.
pub open spec fn prev_day_spec(y: int, m: int, d: int) -> (int, int, int) {
    if d > 1 {
        (y, m, d - 1)
    } else if m > 1 {
        (y, m - 1, days_in_month(y, m - 1))
    } else {
        (y - 1, 12, 31)
    }
}

/// The day after `(y, m, d)`.
pub fn next_day(y: i32, m: u32, d: u32) -> (r: (i32, u32, u32))
    requires
        -1000000 <= y <= 1000000,
    ensures
        (r.0 as int, r.1 as int, r.2 as int) == next_day_spec(y as int, m as int, d as int),
{
    if d < days_in_month_exec(y, m) {
        (y, m, d + 1)
    } else if m < 12 {
        (y, m + 1, 1)
    } else {
        (y + 1, 1, 1)
    }
}

/// The day before `(y, m, d)`.
pub fn prev_day(y: i32, m: u32, d: u32) -> (r: (i32, u32, u32))
    requires
        -1000000 <= y <= 1000000,
    ensures
        (r.0 as int, r.1 as int, r.2 as int) == prev_day_spec(y as int, m as int, d as int),
{
    if d > 1 {
        (y, m, d - 1)
    } else if m > 1 {
        (y, m - 1, days_in_month_exec(y, m - 1))
    } else {
        (y - 1, 12, 31)
    }
}

/// Ordering of two date-times, lexicographic over year, month, day, hour and
/// minute.
pub open spec fn dt_le(a: &DateTime, b: &DateTime) -> bool {
    if a.year != b.year {
        a.year < b.year
    } else if a.month != b.month {
        a.month < b.month
    } else if a.day != b.day {
        a.day < b.day
    } else if a.hour != b.hour {
        a.hour < b.hour
    } else {
        a.minute <= b.minute
    }
}

impl DateTime {
    /// A well-formed date-time: a supported date with a valid clock time.
    pub open spec fn wf(&self) -> bool {
        &&& valid_date(self.year as int, self.month as int, self.day as int)
        &&& self.hour < 24
        &&& self.minute < 60
    }

    /// Whether `self` lies no later than `other`.
    pub fn le(&self, other: &DateTime) -> (r: bool)
        ensures
            r == dt_le(self, other),
    {
        if self.year != other.year {
            self.year < other.year
        } else if self.month != other.month {
            self.month < other.month
        } else if self.day != other.day {
            self.day < other.day
        } else if self.hour != other.hour {
            self.hour < other.hour
        } else {
            self.minute <= other.minute
        }
    }
}

/// The month a rendered month name denotes, or `0` for an unknown name.
/// German and English abbreviations are both in use on the platform.
pub open spec fn month_from_name(w: Seq<char>) -> int {
    if w == "Jan"@ {
        1
    } else if w == "Feb"@ {
        2
    } else if w == "Mär"@ || w == "Mar"@ {
        3
    } else if w == "Apr"@ {
        4
    } else if w == "Mai"@ || w == "May"@ {
        5
    } else if w == "Jun"@ {
        6
    } else if w == "Jul"@ {
        7
    } else if w == "Aug"@ {
        8
    } else if w == "Sep"@ {
        9
    } else if w == "Okt"@ || w == "Oct"@ {
        10
    } else if w == "Nov"@ {
        11
    } else if w == "Dez"@ || w == "Dec"@ {
        12
    } else {
        0
    }
}

/// The month a rendered month name denotes, or `0` for an unknown name.
pub fn month_from_name_exec(w: &str) -> (r: u32)
    ensures
        r == month_from_name(w@),
{
    if str_eq(w, "Jan") {
        1
    } else if str_eq(w, "Feb") {
        2
    } else if str_eq(w, "Mär") || str_eq(w, "Mar") {
        3
    } else if str_eq(w, "Apr") {
        4
    } else if str_eq(w, "Mai") || str_eq(w, "May") {
        5
    } else if str_eq(w, "Jun") {
        6
    } else if str_eq(w, "Jul") {
        7
    } else if str_eq(w, "Aug") {
        8
    } else if str_eq(w, "Sep") {
        9
    } else if str_eq(w, "Okt") || str_eq(w, "Oct") {
        10
    } else if str_eq(w, "Nov") {
        11
    } else if str_eq(w, "Dez") || str_eq(w, "Dec") {
        12
    } else {
        0
    }
}

/// The clock time a trimmed time string denotes: one or two hour digits, a
/// colon, and one or two minute digits.
pub open spec fn time_of(t: Seq<char>) -> Option<(int, int)> {
    let c = first_index_from(t, ":"@, 0);
    if c < 1 || c > 2 {
        None
    } else {
        let hs = t.subrange(0, c);
        let ms = t.subrange(c + 1, t.len() as int);
        if all_digits(hs) && all_digits(ms) && 1 <= ms.len() <= 2 && dec_value(hs) <= 23
            && dec_value(ms) <= 59 {
            Some((dec_value(hs), dec_value(ms)))
        } else {
            None
        }
    }
}

/// The date a trimmed date string denotes, relative to `today`: a relative
/// word, or a day number, a dot, a month name and a year.
pub open spec fn date_of(d: Seq<char>, today: &DateTime) -> Option<(int, int, int)> {
    let ty = today.year as int;
    let tm = today.month as int;
    let td = today.day as int;
    if d == "Gestern"@ || d == "Yesterday"@ {
        Some(prev_day_spec(ty, tm, td))
    } else if d == "Heute"@ || d == "Today"@ {
        Some((ty, tm, td))
    } else if d == "Morgen"@ || d == "Tomorrow"@ {
        Some(next_day_spec(ty, tm, td))
    } else {
        let e1 = digit_run_end(d, 0);
        if e1 < 1 || !match_at(d, ". "@, e1) {
            None
        } else {
            let sp = first_index_from(d, " "@, e1 + 2);
            if sp < 0 || sp == e1 + 2 || sp + 1 >= d.len() {
                None
            } else {
                let m = month_from_name(d.subrange(e1 + 2, sp));
                let ys = d.subrange(sp + 1, d.len() as int);
                if m == 0 || !all_digits(ys) {
                    None
                } else {
                    Some((dec_value(ys), m, dec_value(d.subrange(0, e1))))
                }
            }
        }
    }
}

/// The date-time a rendered date string denotes, relative to `today`:
/// a date part and a time part separated by the first comma, each trimmed,
/// yielding a supported calendar date.
pub open spec fn parse_date_spec(s: Seq<char>, today: &DateTime) -> Option<DateTime> {
    let comma = first_index_from(s, ","@, 0);
    if comma < 0 {
        None
    } else {
        let dpart = trim_seq(s.subrange(0, comma));
        let tpart = trim_seq(s.subrange(comma + 1, s.len() as int));
        match (date_of(dpart, today), time_of(tpart)) {
            (Some((y, m, d)), Some((h, mi))) => if valid_date(y, m, d) {
                Some(
                    DateTime {
                        year: y as i32,
                        month: m as u32,
                        day: d as u32,
                        hour: h as u32,
                        minute: mi as u32,
                    },
                )
            } else {
                None
            },
            _ => None,
        }
    }
}

/// Parse the time part of a rendered date string.
fn parse_time_part(t: &str) -> (r: Option<(u32, u32)>)
    ensures
        match r {
            Some((h, mi)) => time_of(t@) == Some((h as int, mi as int)),
            None => time_of(t@) is None,
        },
{
    proof {
        reveal_strlit(":");
    }
    let len = t.unicode_len();
    let c = match find_index_from(t, ":", 0) {
        None => {
            return None;
        },
        Some(c) => c,
    };
    if c < 1 || c > 2 {
        return None;
    }
    let hs = substring_string(t, 0, c);
    let ms = substring_string(t, c + 1, len);
    let h = match parse_decimal_u32(hs.as_str()) {
        None => {
            return None;
        },
        Some(h) => h,
    };
    let mi = match parse_decimal_u32(ms.as_str()) {
        None => {
            return None;
        },
        Some(mi) => mi,
    };
    let mlen = len - (c + 1);
    if mlen < 1 || mlen > 2 || h > 23 || mi > 59 {
        return None;
    }
    Some((h, mi))
}

/// Parse the date part of a rendered date string.
fn parse_date_part(d: &str, today: &DateTime) -> (r: Option<(i32, u32, u32)>)
    ensures
        match r {
            Some((y, m, dd)) => date_of(d@, today) == Some((y as int, m as int, dd as int))
                && valid_date(y as int, m as int, dd as int),
            None => ({
                ||| date_of(d@, today) is None
                ||| (date_of(d@, today) matches Some((y, m, dd)) && !valid_date(y, m, dd))
            }),
        },
{
    // A current year this far outside the calendar keeps every relative date
    // out of the supported range, whatever day and month say.
    let today_usable = -1000000 <= today.year && today.year <= 1000000;
    if str_eq(d, "Gestern") || str_eq(d, "Yesterday") {
        if !today_usable {
            return None;
        }
        let (y, m, dd) = prev_day(today.year, today.month, today.day);
        if is_valid_date(y, m, dd) {
            return Some((y, m, dd));
        } else {
            return None;
        }
    }
    if str_eq(d, "Heute") || str_eq(d, "Today") {
        if is_valid_date(today.year, today.month, today.day) {
            return Some((today.year, today.month, today.day));
        } else {
            return None;
        }
    }
    if str_eq(d, "Morgen") || str_eq(d, "Tomorrow") {
        if !today_usable {
            return None;
        }
        let (y, m, dd) = next_day(today.year, today.month, today.day);
        if is_valid_date(y, m, dd) {
            return Some((y, m, dd));
        } else {
            return None;
        }
    }
    let len = d.unicode_len();
    let e1 = digit_run_end_exec(d, 0);
    if e1 < 1 || !str_match_at(d, ". ", e1) {
        return None;
    }
    proof {
        reveal_strlit(". ");
        reveal_strlit(" ");
    }
    let sp = match find_index_from(d, " ", e1 + 2) {
        None => {
            return None;
        },
        Some(sp) => sp,
    };
    if sp == e1 + 2 || sp + 1 >= len {
        return None;
    }
    let word = substring_string(d, e1 + 2, sp);
    let m = month_from_name_exec(word.as_str());
    let ys = substring_string(d, sp + 1, len);
    let y = match parse_decimal_u32(ys.as_str()) {
        None => {
            proof {
                if all_digits(ys@) && ys@.len() > 0 {
                    // The year value overflowed `u32`, so it cannot be a
                    // supported year either.
                    assert(dec_value(ys@) > 9999);
                }
            }
            return None;
        },
        Some(y) => y,
    };
    if m == 0 || y > 9999 {
        return None;
    }
    let ds = substring_string(d, 0, e1);
    let dd = match parse_decimal_u32(ds.as_str()) {
        None => {
            proof {
                lemma_digit_run_end(d@, 0);
                assert(all_digits(ds@));
                assert(dec_value(ds@) > 31);
            }
            return None;
        },
        Some(dd) => dd,
    };
    if is_valid_date(y as i32, m, dd) {
        Some((y as i32, m, dd))
    } else {
        None
    }
}

/// Parse a date string the platform rendered, such as `"12. Mär 2024, 13:30"`
/// or `"Heute, 08:15"`, into the crate's calendar model. Relative words are
/// resolved against `today`. Fails when the string deviates from the rendered
/// shape or denotes no supported calendar date.
pub fn parse_date(date_string: &str, today: &DateTime) -> (r: Result<DateTime, ParseError>)
    ensures
        match r {
            Ok(dt) => parse_date_spec(date_string@, today) == Some(dt),
            Err(_) => parse_date_spec(date_string@, today) is None,
        },
{
    proof {
        reveal_strlit(",");
    }
    let len = date_string.unicode_len();
    let comma = match find_index_from(date_string, ",", 0) {
        None => {
            return Err(ParseError::new("a comma separating date and time"));
        },
        Some(c) => c,
    };
    let dpart = trim_str(substring_string(date_string, 0, comma).as_str());
    let tpart = trim_str(substring_string(date_string, comma + 1, len).as_str());
    let (h, mi) = match parse_time_part(tpart.as_str()) {
        None => {
            return Err(ParseError::new("a clock time of the shape H:MM"));
        },
        Some(t) => t,
    };
    let (y, m, d) = match parse_date_part(dpart.as_str(), today) {
        None => {
            return Err(ParseError::new("a relative day word or a date of the shape D. Mon YYYY"));
        },
        Some(d) => d,
    };
    Ok(DateTime { year: y, month: m, day: d, hour: h, minute: mi })
}

} // verus!

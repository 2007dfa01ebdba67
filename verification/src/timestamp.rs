//! RFC 3339 timestamps as the history filters read them: a calendar date,
//! `T`, a time of day with an optional fraction of up to nine digits, and
//! `Z` or a numeric `+hh:mm` / `-hh:mm` offset.
use vstd::prelude::*;

use crate::text::{
    all_ascii_digits, all_digits, digit_value, digits_value, has_char, i32_text, is_ascii_digit,
    parse_digits_u32, parse_i32_text, slice_of, split_once_at, split_once_char, u32_digits,
};

verus! {

/// A point in time: whole seconds since the Unix epoch and the nanoseconds
/// past them.
#[derive(Clone, Copy, Debug, PartialEq, Eq, Structural)]
pub struct Timestamp {
    pub epoch_seconds: i64,
    pub nanos: u32,
}

// ---------------------------------------------------------------------------
// The calendar
// ---------------------------------------------------------------------------

/// Gregorian leap years.
pub open spec fn is_leap_year(year: int) -> bool {
    (year % 4 == 0 && year % 100 != 0) || year % 400 == 0
}

/// The number of days of `month` in `year`; 0 for a month outside 1..=12.
pub open spec fn days_in_month(year: int, month: int) -> int {
    if month == 1 || month == 3 || month == 5 || month == 7 || month == 8 || month == 10 || month
        == 12 {
        31
    } else if month == 4 || month == 6 || month == 9 || month == 11 {
        30
    } else if month == 2 {
        if is_leap_year(year) {
            29
        } else {
            28
        }
    } else {
        0
    }
}

/// The day of a year that starts on March 1st: March 1st is day 0.
pub open spec fn day_of_march_year(month: int, day: int) -> int {
    (153 * (if month > 2 {
        month - 3
    } else {
        month + 9
    }) + 2) / 5 + day - 1
}

/// Days from 1970-01-01 to the civil date `year-month-day` of the proleptic
/// Gregorian calendar, counted in 400-year eras of 146097 days that start on
/// March 1st.
pub open spec fn days_from_civil(year: int, month: int, day: int) -> int {
    let y = if month <= 2 {
        year - 1
    } else {
        year
    };
    let era = y / 400;
    let year_of_era = y - era * 400;
    let day_of_era = year_of_era * 365 + year_of_era / 4 - year_of_era / 100 + day_of_march_year(
        month,
        day,
    );
    era * 146097 + day_of_era - 719468
}

/// The Unix epoch is day 0.
pub proof fn lemma_epoch_is_day_zero()
    ensures
        days_from_civil(1970, 1, 1) == 0,
{
}

/// Within a month, the next day is one day later.
pub proof fn lemma_next_day_in_month(year: int, month: int, day: int)
    requires
        1 <= month <= 12,
        1 <= day < days_in_month(year, month),
    ensures
        days_from_civil(year, month, day + 1) == days_from_civil(year, month, day) + 1,
{
}

/// The first day of each month from February to December but March follows
/// the last day of the month before it.
pub proof fn lemma_next_month(year: int, month: int)
    requires
        1 <= month < 12,
        month != 2,
    ensures
        days_from_civil(year, month + 1, 1) == days_from_civil(
            year,
            month,
            days_in_month(year, month),
        ) + 1,
{
}

/// March 1st follows the last day of February, in leap years and others.
pub proof fn lemma_march_follows_february(year: int)
    ensures
        days_from_civil(year, 3, 1) == days_from_civil(year, 2, days_in_month(year, 2)) + 1,
{
    let prev = year - 1;
    let era = year / 400;
    let prev_era = prev / 400;
    let yoe = year - era * 400;
    let prev_yoe = prev - prev_era * 400;
    if year % 400 == 0 {
        assert(prev_era == era - 1);
        assert(prev_yoe == 399);
        assert(yoe == 0);
    } else {
        assert(prev_era == era);
        assert(yoe == prev_yoe + 1);
        assert(year % 4 == 0 <==> yoe % 4 == 0);
        assert(year % 100 == 0 <==> yoe % 100 == 0);
        assert(yoe / 4 == prev_yoe / 4 + (if yoe % 4 == 0 { 1int } else { 0int }));
        assert(yoe / 100 == prev_yoe / 100 + (if yoe % 100 == 0 { 1int } else { 0int }));
    }
}

/// New Year's Day follows December 31st.
pub proof fn lemma_next_year(year: int)
    ensures
        days_from_civil(year + 1, 1, 1) == days_from_civil(year, 12, 31) + 1,
{
}

/// The number `10^n`.
pub open spec fn pow10(n: nat) -> nat
    decreases n,
{
    if n == 0 {
        1
    } else {
        10 * pow10((n - 1) as nat)
    }
}

/// A value written with `n` decimal digits is below `10^n`.
pub proof fn lemma_digits_value_bound(s: Seq<char>)
    requires
        all_digits(s),
    ensures
        digits_value(s) < pow10(s.len()),
    decreases s.len(),
{
    if s.len() > 0 {
        let rest = s.drop_last();
        assert(all_digits(rest)) by {
            assert forall|i: int| 0 <= i < rest.len() implies is_ascii_digit(#[trigger] rest[i]) by {
                assert(rest[i] == s[i]);
            }
        }
        lemma_digits_value_bound(rest);
        assert(is_ascii_digit(s[s.len() - 1]));
        assert(digit_value(s.last()) <= 9);
    }
}

// ---------------------------------------------------------------------------
// The parts of a timestamp
// ---------------------------------------------------------------------------

/// `YYYY-MM-DD`: a year (an `i32`), a month in 1..=12 and a day of that month,
/// separated by exactly two hyphens.
pub open spec fn date_value(s: Seq<char>) -> Option<(int, int, int)> {
    match split_once_char(s, '-') {
        None => None,
        Some((year_text, rest)) => match split_once_char(rest, '-') {
            None => None,
            Some((month_text, day_text)) => if day_text.contains('-') {
                None
            } else {
                match (i32_text(year_text), u32_digits(month_text), u32_digits(day_text)) {
                    (Some(year), Some(month), Some(day)) => if 1 <= month <= 12 && day != 0 && day
                        <= days_in_month(year as int, month as int) {
                        Some((year as int, month as int, day as int))
                    } else {
                        None
                    },
                    _ => None,
                }
            },
        },
    }
}

/// The first index at or after `i` that holds `+` or `-`.
pub open spec fn sign_index_from(s: Seq<char>, i: int) -> Option<int>
    decreases s.len() - i,
{
    if i < 0 || i >= s.len() {
        None
    } else if s[i] == '+' || s[i] == '-' {
        Some(i)
    } else {
        sign_index_from(s, i + 1)
    }
}

/// The time of day and the offset east of UTC in seconds: a trailing `Z` is
/// offset 0; otherwise the first sign after the first character starts an
/// `hh:mm` offset with hours in 0..=23 and minutes in 0..=59.
pub open spec fn time_and_offset(s: Seq<char>) -> Option<(Seq<char>, int)> {
    if s.len() > 0 && s.last() == 'Z' {
        Some((s.drop_last(), 0))
    } else {
        match sign_index_from(s, 1) {
            None => None,
            Some(k) => {
                let sign: int = if s[k] == '+' {
                    1
                } else {
                    -1
                };
                match split_once_char(s.subrange(k + 1, s.len() as int), ':') {
                    None => None,
                    Some((hours_text, minutes_text)) => if minutes_text.contains(':') {
                        None
                    } else {
                        match (i32_text(hours_text), i32_text(minutes_text)) {
                            (Some(hours), Some(minutes)) => if 0 <= hours <= 23 && 0 <= minutes
                                <= 59 {
                                Some((s.subrange(0, k), sign * (hours * 3600 + minutes * 60)))
                            } else {
                                None
                            },
                            _ => None,
                        }
                    },
                }
            },
        }
    }
}

/// A fraction of a second: up to nine digits, read as nanoseconds.
pub open spec fn nanos_value(s: Seq<char>) -> Option<int> {
    if s.len() == 0 {
        Some(0)
    } else if s.len() > 9 || !all_digits(s) {
        None
    } else {
        Some((digits_value(s) * pow10((9 - s.len()) as nat)) as int)
    }
}

/// `hh:mm:ss` with an optional `.fraction`: hours in 0..=23, minutes in
/// 0..=59 and seconds in 0..=60 (a leap second).
pub open spec fn time_value(s: Seq<char>) -> Option<(int, int, int, int)> {
    match split_once_char(s, ':') {
        None => None,
        Some((hour_text, rest)) => match split_once_char(rest, ':') {
            None => None,
            Some((minute_text, seconds_text)) => if seconds_text.contains(':') {
                None
            } else {
                let (second_text, fraction) = match split_once_char(seconds_text, '.') {
                    Some((whole, fraction)) => (whole, fraction),
                    None => (seconds_text, Seq::<char>::empty()),
                };
                match (
                    u32_digits(hour_text),
                    u32_digits(minute_text),
                    u32_digits(second_text),
                    nanos_value(fraction),
                ) {
                    (Some(hour), Some(minute), Some(second), Some(nanos)) => if hour <= 23
                        && minute <= 59 && second <= 60 {
                        Some((hour as int, minute as int, second as int, nanos))
                    } else {
                        None
                    },
                    _ => None,
                }
            },
        },
    }
}

/// What a timestamp denotes: its seconds since the epoch and its nanoseconds,
/// or `None` where the text is no timestamp.
pub open spec fn timestamp_value(s: Seq<char>) -> Option<(int, int)> {
    match split_once_char(s, 'T') {
        None => None,
        Some((date, rest)) => match (date_value(date), time_and_offset(rest)) {
            (Some((year, month, day)), Some((time, offset))) => match time_value(time) {
                Some((hour, minute, second, nanos)) => Some(
                    (
                        days_from_civil(year, month, day) * 86400 + hour * 3600 + minute * 60
                            + second - offset,
                        nanos,
                    ),
                ),
                None => None,
            },
            _ => None,
        },
    }
}

/// The timestamp that `s` denotes.
pub open spec fn timestamp_of(s: Seq<char>) -> Option<Timestamp> {
    match timestamp_value(s) {
        Some((seconds, nanos)) => Some(
            Timestamp { epoch_seconds: seconds as i64, nanos: nanos as u32 },
        ),
        None => None,
    }
}

/// `a` is no later than `b`.
pub open spec fn timestamp_le(a: Timestamp, b: Timestamp) -> bool {
    a.epoch_seconds < b.epoch_seconds || (a.epoch_seconds == b.epoch_seconds && a.nanos
        <= b.nanos)
}

// ---------------------------------------------------------------------------
// Parsing
// ---------------------------------------------------------------------------

fn is_leap_year_exec(year: i32) -> (b: bool)
    ensures
        b == is_leap_year(year as int),
{
    let wide: i64 = year as i64;
    let magnitude: u64 = if wide < 0 {
        (0 - wide) as u64
    } else {
        wide as u64
    };
    assert((year as int) % 4 == 0 <==> (magnitude as int) % 4 == 0);
    assert((year as int) % 100 == 0 <==> (magnitude as int) % 100 == 0);
    assert((year as int) % 400 == 0 <==> (magnitude as int) % 400 == 0);
    (magnitude % 4 == 0 && magnitude % 100 != 0) || magnitude % 400 == 0
}

fn days_in_month_exec(year: i32, month: u32) -> (r: u32)
    ensures
        r == days_in_month(year as int, month as int),
{
    if month == 1 || month == 3 || month == 5 || month == 7 || month == 8 || month == 10 || month
        == 12 {
        31
    } else if month == 4 || month == 6 || month == 9 || month == 11 {
        30
    } else if month == 2 {
        if is_leap_year_exec(year) {
            29
        } else {
            28
        }
    } else {
        0
    }
}

fn days_from_civil_exec(year: i32, month: u32, day: u32) -> (r: i64)
    requires
        1 <= month <= 12,
        1 <= day <= 31,
    ensures
        r == days_from_civil(year as int, month as int, day as int),
        -800_000_000_000 <= r <= 800_000_000_000,
{
    let y: i64 = if month <= 2 {
        year as i64 - 1
    } else {
        year as i64
    };
    let era: i64 = if y >= 0 {
        ((y as u64) / 400) as i64
    } else {
        let magnitude: u64 = (0 - y) as u64;
        0 - (((magnitude + 399) / 400) as i64)
    };
    assert(era == (y as int) / 400);
    let year_of_era: i64 = y - era * 400;
    assert(0 <= year_of_era < 400);
    let shifted: i64 = if month > 2 {
        month as i64 - 3
    } else {
        month as i64 + 9
    };
    let day_of_year: i64 = ((153 * shifted + 2) as u64 / 5) as i64 + day as i64 - 1;
    let yoe: u64 = year_of_era as u64;
    let day_of_era: i64 = year_of_era * 365 + (yoe / 4) as i64 - (yoe / 100) as i64
        + day_of_year;
    era * 146097 + day_of_era - 719468
}

/// The date part.
fn parse_date(s: &Vec<char>) -> (r: Option<(i32, u32, u32)>)
    ensures
        match r {
            Some((year, month, day)) => date_value(s@) == Some(
                (year as int, month as int, day as int),
            ) && 1 <= month <= 12 && 1 <= day <= 31,
            None => date_value(s@) is None,
        },
{
    let (year_text, rest) = match split_once_at(s, '-') {
        Some(parts) => parts,
        None => return None,
    };
    let (month_text, day_text) = match split_once_at(&rest, '-') {
        Some(parts) => parts,
        None => return None,
    };
    if has_char(&day_text, '-') {
        return None;
    }
    let year = match parse_i32_text(&year_text) {
        Some(v) => v,
        None => return None,
    };
    let month = match parse_digits_u32(&month_text) {
        Some(v) => v,
        None => return None,
    };
    let day = match parse_digits_u32(&day_text) {
        Some(v) => v,
        None => return None,
    };
    if month < 1 || month > 12 || day == 0 || day > days_in_month_exec(year, month) {
        return None;
    }
    Some((year, month, day))
}

/// The first index at or after `start` that holds a sign.
fn find_sign_from(v: &Vec<char>, start: usize) -> (r: Option<usize>)
    ensures
        r matches Some(k) ==> sign_index_from(v@, start as int) == Some(k as int) && start <= k
            < v.len(),
        r is None ==> sign_index_from(v@, start as int) is None,
    decreases v.len() - start,
{
    if start >= v.len() {
        return None;
    }
    if v[start] == '+' || v[start] == '-' {
        return Some(start);
    }
    find_sign_from(v, start + 1)
}

/// The time of day and the offset in seconds.
fn parse_time_and_offset(s: &Vec<char>) -> (r: Option<(Vec<char>, i32)>)
    ensures
        match r {
            Some((time, offset)) => time_and_offset(s@) == Some((time@, offset as int)),
            None => time_and_offset(s@) is None,
        },
{
    if s.len() > 0 && s[s.len() - 1] == 'Z' {
        let time = slice_of(s, 0, s.len() - 1);
        assert(time@ =~= s@.drop_last());
        return Some((time, 0));
    }
    let k = match find_sign_from(s, 1) {
        Some(k) => k,
        None => return None,
    };
    let positive = s[k] == '+';
    let rest = slice_of(s, k + 1, s.len());
    let (hours_text, minutes_text) = match split_once_at(&rest, ':') {
        Some(parts) => parts,
        None => return None,
    };
    if has_char(&minutes_text, ':') {
        return None;
    }
    let hours = match parse_i32_text(&hours_text) {
        Some(v) => v,
        None => return None,
    };
    let minutes = match parse_i32_text(&minutes_text) {
        Some(v) => v,
        None => return None,
    };
    if hours < 0 || hours > 23 || minutes < 0 || minutes > 59 {
        return None;
    }
    let magnitude: i32 = hours * 3600 + minutes * 60;
    let offset: i32 = if positive {
        magnitude
    } else {
        0 - magnitude
    };
    proof {
        let m = hours as int * 3600 + minutes as int * 60;
        assert(1int * m == m);
        assert(-1int * m == -m);
    }
    Some((slice_of(s, 0, k), offset))
}

/// A fraction of a second as nanoseconds.
fn parse_nanos(s: &Vec<char>) -> (r: Option<u32>)
    ensures
        match r {
            Some(v) => nanos_value(s@) == Some(v as int),
            None => nanos_value(s@) is None,
        },
{
    if s.len() == 0 {
        return Some(0);
    }
    if s.len() > 9 || !all_ascii_digits(s) {
        return None;
    }
    proof {
        lemma_digits_value_bound(s@);
        lemma_pow10_mono(s@.len(), 9);
    }
    proof {
        lemma_pow10_nine();
    }
    let mut nanos: u32 = match parse_digits_u32(s) {
        Some(v) => v,
        None => return None,
    };
    let mut i: usize = s.len();
    assert(pow10(0) == 1);
    assert(digits_value(s@) * 1 == digits_value(s@));
    while i < 9
        invariant
            s@.len() <= i <= 9,
            nanos as nat == digits_value(s@) * pow10((i - s@.len()) as nat),
            nanos < pow10(i as nat),
            pow10(9) == 1_000_000_000,
        decreases 9 - i,
    {
        proof {
            lemma_pow10_mono((i + 1) as nat, 9);
            assert(pow10((i + 1) as nat) == 10 * pow10(i as nat));
            assert(pow10((i + 1 - s@.len()) as nat) == 10 * pow10((i - s@.len()) as nat));
            assert(digits_value(s@) * (10 * pow10((i - s@.len()) as nat)) == 10 * (digits_value(
                s@,
            ) * pow10((i - s@.len()) as nat))) by (nonlinear_arith);
        }
        nanos = nanos * 10;
        i += 1;
    }
    Some(nanos)
}

/// `10^n` grows with `n`.
proof fn lemma_pow10_mono(m: nat, n: nat)
    requires
        m <= n,
    ensures
        pow10(m) <= pow10(n),
    decreases n - m,
{
    if m < n {
        lemma_pow10_mono(m, (n - 1) as nat);
    }
}

/// The time of day.
fn parse_time(s: &Vec<char>) -> (r: Option<(u32, u32, u32, u32)>)
    ensures
        match r {
            Some((hour, minute, second, nanos)) => time_value(s@) == Some(
                (hour as int, minute as int, second as int, nanos as int),
            ) && hour <= 23 && minute <= 59 && second <= 60 && nanos < 1_000_000_000,
            None => time_value(s@) is None,
        },
{
    let (hour_text, rest) = match split_once_at(s, ':') {
        Some(parts) => parts,
        None => return None,
    };
    let (minute_text, seconds_text) = match split_once_at(&rest, ':') {
        Some(parts) => parts,
        None => return None,
    };
    if has_char(&seconds_text, ':') {
        return None;
    }
    let (second_text, fraction) = match split_once_at(&seconds_text, '.') {
        Some(parts) => parts,
        None => (seconds_text, Vec::new()),
    };
    assert(fraction@ =~= Seq::<char>::empty() || split_once_char(seconds_text@, '.') is Some);
    let hour = match parse_digits_u32(&hour_text) {
        Some(v) => v,
        None => return None,
    };
    let minute = match parse_digits_u32(&minute_text) {
        Some(v) => v,
        None => return None,
    };
    let second = match parse_digits_u32(&second_text) {
        Some(v) => v,
        None => return None,
    };
    if hour > 23 || minute > 59 || second > 60 {
        return None;
    }
    let nanos = match parse_nanos(&fraction) {
        Some(v) => v,
        None => return None,
    };
    proof {
        lemma_nanos_bound(fraction@);
    }
    Some((hour, minute, second, nanos))
}

/// Nanoseconds stay below one second.
proof fn lemma_nanos_bound(s: Seq<char>)
    ensures
        nanos_value(s) matches Some(v) ==> 0 <= v < 1_000_000_000,
{
    if s.len() > 0 && s.len() <= 9 && all_digits(s) {
        lemma_digits_value_bound(s);
        let e = (9 - s.len()) as nat;
        lemma_pow10_sum(s.len(), e);
        lemma_pow10_nine();
        assert(digits_value(s) * pow10(e) < pow10(s.len()) * pow10(e)) by (nonlinear_arith)
            requires
                digits_value(s) < pow10(s.len()),
                pow10(e) > 0,
        {
        }
    }
}

/// `10^(m + n) = 10^m * 10^n`, and powers of ten are positive.
proof fn lemma_pow10_sum(m: nat, n: nat)
    ensures
        pow10(m + n) == pow10(m) * pow10(n),
        pow10(n) > 0,
    decreases m,
{
    if m > 0 {
        lemma_pow10_sum((m - 1) as nat, n);
        assert((m + n - 1) as nat == (m - 1 + n) as nat);
        assert(pow10(m + n) == 10 * pow10((m - 1 + n) as nat));
        assert(pow10(m) == 10 * pow10((m - 1) as nat));
        assert(10 * (pow10((m - 1) as nat) * pow10(n)) == (10 * pow10((m - 1) as nat)) * pow10(
            n,
        )) by (nonlinear_arith);
    } else {
        lemma_pow10_positive(n);
        assert(pow10(0) == 1);
        assert(m + n == n);
        assert(1 * pow10(n) == pow10(n));
    }
}

proof fn lemma_pow10_nine()
    ensures
        pow10(9) == 1_000_000_000,
{
    reveal_with_fuel(pow10, 10);
}

proof fn lemma_pow10_positive(n: nat)
    ensures
        pow10(n) > 0,
    decreases n,
{
    if n > 0 {
        lemma_pow10_positive((n - 1) as nat);
    }
}

impl Timestamp {
    /// Parses an RFC 3339 timestamp; `None` where the text is none.
    pub fn parse_chars(s: &Vec<char>) -> (r: Option<Timestamp>)
        ensures
            r == timestamp_of(s@),
            r matches Some(t) ==> timestamp_value(s@) == Some(
                (t.epoch_seconds as int, t.nanos as int),
            ),
    {
        let (date, rest) = match split_once_at(s, 'T') {
            Some(parts) => parts,
            None => return None,
        };
        let (year, month, day) = match parse_date(&date) {
            Some(parts) => parts,
            None => return None,
        };
        let (time, offset) = match parse_time_and_offset(&rest) {
            Some(parts) => parts,
            None => return None,
        };
        let (hour, minute, second, nanos) = match parse_time(&time) {
            Some(parts) => parts,
            None => return None,
        };
        let days = days_from_civil_exec(year, month, day);
        let local: i64 = days * 86400 + hour as i64 * 3600 + minute as i64 * 60 + second as i64;
        let seconds: i64 = local - offset as i64;
        Some(Timestamp { epoch_seconds: seconds, nanos })
    }

    /// Parses an RFC 3339 timestamp; `None` where the text is none.
    pub fn parse(value: &str) -> (r: Option<Timestamp>)
        ensures
            r == timestamp_of(value@),
            r matches Some(t) ==> timestamp_value(value@) == Some(
                (t.epoch_seconds as int, t.nanos as int),
            ),
    {
        let chars = crate::text::chars_of(value);
        Timestamp::parse_chars(&chars)
    }

    /// `self` is no later than `other`.
    pub fn at_or_before(&self, other: &Timestamp) -> (b: bool)
        ensures
            b == timestamp_le(*self, *other),
    {
        self.epoch_seconds < other.epoch_seconds || (self.epoch_seconds == other.epoch_seconds
            && self.nanos <= other.nanos)
    }
}

} // verus!

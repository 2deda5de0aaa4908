//! Wire date-times and their structured form.
//!
//! The upstream API carries timestamps as text in the RFC 3339 date-time
//! shape `YYYY-MM-DDTHH:MM:SS[.fff...](Z|+HH:MM|-HH:MM)`. Mapping parses
//! that text into a structured [`Timestamp`]; malformed text fails the
//! mapping instead of being replaced by a default.

use vstd::prelude::*;
use vstd::string::StrSliceExecFns;

use crate::error::Error;

verus! {

/// Days the reporting window reaches back when the caller supplies no
/// starting point.
pub const DEFAULT_WINDOW_DAYS: u64 = 7;

/// Whether `c` is a decimal digit.
pub open spec fn is_digit(c: char) -> bool {
    48 <= (c as u32) && (c as u32) <= 57
}

/// Numeric value of a decimal digit character.
pub open spec fn digit_val(c: char) -> int {
    (c as u32) - 48
}

/// Value of the two digits at `i` and `i + 1`.
pub open spec fn two_digits(s: Seq<char>, i: int) -> int {
    10 * digit_val(s[i]) + digit_val(s[i + 1])
}

/// Value of the four digits starting at `i`.
pub open spec fn four_digits(s: Seq<char>, i: int) -> int {
    1000 * digit_val(s[i]) + 100 * digit_val(s[i + 1]) + 10 * digit_val(s[i + 2]) + digit_val(
        s[i + 3],
    )
}

/// Gregorian leap-year rule.
pub open spec fn leap_year(y: int) -> bool {
    (y % 4 == 0 && y % 100 != 0) || y % 400 == 0
}

/// Number of days in month `m` of year `y`.
pub open spec fn days_in_month(y: int, m: int) -> int {
    if m == 2 {
        if leap_year(y) {
            29
        } else {
            28
        }
    } else if m == 4 || m == 6 || m == 9 || m == 11 {
        30
    } else {
        31
    }
}

/// The first ten characters form a calendar date `YYYY-MM-DD`.
pub open spec fn valid_date(s: Seq<char>) -> bool {
    &&& is_digit(s[0]) && is_digit(s[1]) && is_digit(s[2]) && is_digit(s[3])
    &&& s[4] == '-'
    &&& is_digit(s[5]) && is_digit(s[6])
    &&& s[7] == '-'
    &&& is_digit(s[8]) && is_digit(s[9])
    &&& 1 <= two_digits(s, 5) <= 12
    &&& 1 <= two_digits(s, 8) <= days_in_month(four_digits(s, 0), two_digits(s, 5))
}

/// Characters 11 through 18 form a time of day `HH:MM:SS`.
pub open spec fn valid_time(s: Seq<char>) -> bool {
    &&& is_digit(s[11]) && is_digit(s[12])
    &&& s[13] == ':'
    &&& is_digit(s[14]) && is_digit(s[15])
    &&& s[16] == ':'
    &&& is_digit(s[17]) && is_digit(s[18])
    &&& two_digits(s, 11) <= 23
    &&& two_digits(s, 14) <= 59
    &&& two_digits(s, 17) <= 59
}

/// The characters from `i` to the end form a zone offset: `Z`, `z`,
/// or a signed `HH:MM`.
pub open spec fn valid_offset(s: Seq<char>, i: int) -> bool {
    if s.len() == i + 1 {
        s[i] == 'Z' || s[i] == 'z'
    } else if s.len() == i + 6 {
        &&& (s[i] == '+' || s[i] == '-')
        &&& is_digit(s[i + 1]) && is_digit(s[i + 2])
        &&& s[i + 3] == ':'
        &&& is_digit(s[i + 4]) && is_digit(s[i + 5])
        &&& two_digits(s, i + 1) <= 23
        &&& two_digits(s, i + 4) <= 59
    } else {
        false
    }
}

/// From `i` on: zero or more further fractional digits, then an offset.
pub open spec fn frac_then_offset(s: Seq<char>, i: int) -> bool
    decreases s.len() - i,
{
    if 0 <= i < s.len() && is_digit(s[i]) {
        frac_then_offset(s, i + 1)
    } else {
        valid_offset(s, i)
    }
}

/// The whole of `s` is an RFC 3339 date-time: a date, a `T`, `t` or
/// space separator, a time of day, an optional fraction of at least one
/// digit, and a zone offset.
pub open spec fn valid_rfc3339(s: Seq<char>) -> bool {
    &&& s.len() >= 20
    &&& valid_date(s)
    &&& (s[10] == 'T' || s[10] == 't' || s[10] == ' ')
    &&& valid_time(s)
    &&& if s[19] == '.' {
        s.len() >= 21 && is_digit(s[20]) && frac_then_offset(s, 21)
    } else {
        valid_offset(s, 19)
    }
}

/// A date-time as carried on the wire: uninterpreted text until parsed.
pub struct DateTime {
    text: String,
}

impl View for DateTime {
    type V = Seq<char>;

    closed spec fn view(&self) -> Seq<char> {
        self.text@
    }
}

/// A parsed date-time: the wire text together with its calendar and
/// clock fields. The zone offset stays in the text.
#[derive(Debug)]
pub struct Timestamp {
    /// The wire text the fields were read from.
    pub text: String,
    pub year: u16,
    pub month: u8,
    pub day: u8,
    pub hour: u8,
    pub minute: u8,
    pub second: u8,
}

/// The mathematical content of a [`Timestamp`].
pub ghost struct TimestampView {
    pub text: Seq<char>,
    pub year: int,
    pub month: int,
    pub day: int,
    pub hour: int,
    pub minute: int,
    pub second: int,
}

impl View for Timestamp {
    type V = TimestampView;

    open spec fn view(&self) -> TimestampView {
        TimestampView {
            text: self.text@,
            year: self.year as int,
            month: self.month as int,
            day: self.day as int,
            hour: self.hour as int,
            minute: self.minute as int,
            second: self.second as int,
        }
    }
}

/// The one timestamp that well-formed wire text `s` parses to.
pub open spec fn timestamp_view_of(s: Seq<char>) -> TimestampView {
    TimestampView {
        text: s,
        year: four_digits(s, 0),
        month: two_digits(s, 5),
        day: two_digits(s, 8),
        hour: two_digits(s, 11),
        minute: two_digits(s, 14),
        second: two_digits(s, 17),
    }
}

impl Timestamp {
    /// The fields agree with the (well-formed) wire text.
    pub open spec fn wf(&self) -> bool {
        valid_rfc3339(self.text@) && self@ == timestamp_view_of(self.text@)
    }
}

impl DateTime {
    /// Wrap wire text; nothing is validated until [`DateTime::parse`].
    pub fn new(text: String) -> (r: DateTime)
        ensures
            r@ == text@,
    {
        DateTime { text }
    }

    /// The wire text itself.
    pub fn as_str(&self) -> (r: &str)
        ensures
            r@ == self@,
    {
        self.text.as_str()
    }

    /// Parse the wire text. Returns the structured timestamp exactly
    /// when the text is a well-formed RFC 3339 date-time; on any other
    /// text, the mapping error.
    pub fn parse(&self) -> (r: Result<Timestamp, Error>)
        ensures
            match r {
                Ok(t) => valid_rfc3339(self@) && t@ == timestamp_view_of(self@) && t.wf(),
                Err(e) => !valid_rfc3339(self@) && e == Error::Mapping,
            },
    {
        let s = self.text.as_str();
        let n = s.unicode_len();
        if n < 20 {
            return Err(Error::Mapping);
        }
        let year = match four_digit_value(s, 0) {
            Some(v) => v,
            None => { return Err(Error::Mapping) },
        };
        if s.get_char(4) != '-' {
            return Err(Error::Mapping);
        }
        let month = match two_digit_value(s, 5) {
            Some(v) => v,
            None => { return Err(Error::Mapping) },
        };
        if s.get_char(7) != '-' {
            return Err(Error::Mapping);
        }
        let day = match two_digit_value(s, 8) {
            Some(v) => v,
            None => { return Err(Error::Mapping) },
        };
        if month < 1 || month > 12 {
            return Err(Error::Mapping);
        }
        if day < 1 || day > days_in_month_exec(year, month) {
            return Err(Error::Mapping);
        }
        let sep = s.get_char(10);
        if !(sep == 'T' || sep == 't' || sep == ' ') {
            return Err(Error::Mapping);
        }
        let hour = match two_digit_value(s, 11) {
            Some(v) => v,
            None => { return Err(Error::Mapping) },
        };
        if s.get_char(13) != ':' {
            return Err(Error::Mapping);
        }
        let minute = match two_digit_value(s, 14) {
            Some(v) => v,
            None => { return Err(Error::Mapping) },
        };
        if s.get_char(16) != ':' {
            return Err(Error::Mapping);
        }
        let second = match two_digit_value(s, 17) {
            Some(v) => v,
            None => { return Err(Error::Mapping) },
        };
        if hour > 23 || minute > 59 || second > 59 {
            return Err(Error::Mapping);
        }
        let tail_ok: bool = if s.get_char(19) == '.' {
            if n < 21 {
                false
            } else if digit_value(s, 20).is_none() {
                false
            } else {
                let end = scan_digits(s, 21);
                proof {
                    lemma_frac_skip_digits(s@, 21, end as int);
                }
                check_offset(s, end)
            }
        } else {
            check_offset(s, 19)
        };
        if !tail_ok {
            return Err(Error::Mapping);
        }
        Ok(
            Timestamp {
                text: self.text.clone(),
                year,
                month,
                day,
                hour,
                minute,
                second,
            },
        )
    }
}

/// The digit at `i`, when there is one.
fn digit_value(s: &str, i: usize) -> (r: Option<u8>)
    requires
        i < s@.len(),
    ensures
        match r {
            Some(d) => is_digit(s@[i as int]) && d as int == digit_val(s@[i as int]),
            None => !is_digit(s@[i as int]),
        },
{
    let c = s.get_char(i);
    let v = c as u32;
    if 48 <= v && v <= 57 {
        Some((v - 48) as u8)
    } else {
        None
    }
}

/// The value of the two digits at `i` and `i + 1`, when both are digits.
fn two_digit_value(s: &str, i: usize) -> (r: Option<u8>)
    requires
        s@.len() <= usize::MAX,
        i + 1 < s@.len(),
    ensures
        match r {
            Some(v) => is_digit(s@[i as int]) && is_digit(s@[i as int + 1]) && v as int
                == two_digits(s@, i as int),
            None => !(is_digit(s@[i as int]) && is_digit(s@[i as int + 1])),
        },
{
    let d0 = match digit_value(s, i) {
        Some(d) => d,
        None => { return None },
    };
    let d1 = match digit_value(s, i + 1) {
        Some(d) => d,
        None => { return None },
    };
    Some(10 * d0 + d1)
}

/// The value of the four digits starting at `i`, when all four are digits.
fn four_digit_value(s: &str, i: usize) -> (r: Option<u16>)
    requires
        s@.len() <= usize::MAX,
        i + 3 < s@.len(),
    ensures
        match r {
            Some(v) => is_digit(s@[i as int]) && is_digit(s@[i as int + 1]) && is_digit(
                s@[i as int + 2],
            ) && is_digit(s@[i as int + 3]) && v as int == four_digits(s@, i as int),
            None => !(is_digit(s@[i as int]) && is_digit(s@[i as int + 1]) && is_digit(
                s@[i as int + 2],
            ) && is_digit(s@[i as int + 3])),
        },
{
    let d0 = match digit_value(s, i) {
        Some(d) => d,
        None => { return None },
    };
    let d1 = match digit_value(s, i + 1) {
        Some(d) => d,
        None => { return None },
    };
    let d2 = match digit_value(s, i + 2) {
        Some(d) => d,
        None => { return None },
    };
    let d3 = match digit_value(s, i + 3) {
        Some(d) => d,
        None => { return None },
    };
    Some(1000 * (d0 as u16) + 100 * (d1 as u16) + 10 * (d2 as u16) + (d3 as u16))
}

/// Days in month `m` of year `y`, executable twin of [`days_in_month`].
fn days_in_month_exec(y: u16, m: u8) -> (r: u8)
    requires
        1 <= m <= 12,
    ensures
        r as int == days_in_month(y as int, m as int),
{
    if m == 2 {
        if (y % 4 == 0 && y % 100 != 0) || y % 400 == 0 {
            29
        } else {
            28
        }
    } else if m == 4 || m == 6 || m == 9 || m == 11 {
        30
    } else {
        31
    }
}

/// First index at or after `start` that does not hold a digit.
fn scan_digits(s: &str, start: usize) -> (r: usize)
    requires
        start <= s@.len(),
    ensures
        start <= r <= s@.len(),
        forall|j: int| start <= j < r ==> is_digit(s@[j]),
        r < s@.len() ==> !is_digit(s@[r as int]),
{
    let n = s.unicode_len();
    let mut i = start;
    while i < n
        invariant
            start <= i <= n,
            n == s@.len(),
            forall|j: int| start <= j < i ==> is_digit(s@[j]),
        decreases n - i,
    {
        let c = s.get_char(i);
        let v = c as u32;
        if 48 <= v && v <= 57 {
            i = i + 1;
        } else {
            return i;
        }
    }
    i
}

/// Whether the characters from `i` to the end form a zone offset.
fn check_offset(s: &str, i: usize) -> (r: bool)
    requires
        i <= s@.len(),
    ensures
        r == valid_offset(s@, i as int),
{
    let n = s.unicode_len();
    if n - i == 1 {
        let c = s.get_char(i);
        c == 'Z' || c == 'z'
    } else if n - i == 6 {
        let c = s.get_char(i);
        if !(c == '+' || c == '-') {
            return false;
        }
        let h = match two_digit_value(s, i + 1) {
            Some(v) => v,
            None => { return false },
        };
        if s.get_char(i + 3) != ':' {
            return false;
        }
        let m = match two_digit_value(s, i + 4) {
            Some(v) => v,
            None => { return false },
        };
        h <= 23 && m <= 59
    } else {
        false
    }
}

/// Skipping a run of digits does not change whether a fraction tail
/// followed by an offset is read from `a` or from `b`.
proof fn lemma_frac_skip_digits(s: Seq<char>, a: int, b: int)
    requires
        0 <= a <= b <= s.len(),
        forall|j: int| a <= j < b ==> is_digit(s[j]),
    ensures
        frac_then_offset(s, a) == frac_then_offset(s, b),
    decreases b - a,
{
    if a < b {
        assert(is_digit(s[a]));
        lemma_frac_skip_digits(s, a + 1, b);
    }
}

/// Relies on `chrono::Utc::now`, `chrono::DateTime::checked_sub_days`
/// and `chrono::DateTime::to_rfc3339`: the moment `days` days before the
/// current time, rendered as RFC 3339 text; `None` exactly when the
/// subtraction leaves chrono's representable range. The result depends
/// on the clock, so nothing is promised of its value.
#[verifier::external_body]
fn clock_window_start(days: u64) -> Option<String> {
    chrono::Utc::now().checked_sub_days(chrono::Days::new(days)).map(|t| t.to_rfc3339())
}

/// Resolve the reporting window: a caller-supplied starting point wins;
/// without one, the window defaults to [`DEFAULT_WINDOW_DAYS`] days
/// before now. `None` only when that clock fallback failed.
pub fn resolve_window(since: Option<DateTime>) -> (r: Option<DateTime>)
    ensures
        since is Some ==> r == since,
{
    match since {
        Some(given) => Some(given),
        None => match clock_window_start(DEFAULT_WINDOW_DAYS) {
            Some(text) => Some(DateTime::new(text)),
            None => None,
        },
    }
}

} // verus!

//! Calendar dates as plain values: parsing from the `YYYY-MM-DD` wire
//! form, formatting back, ordering, and the eighteen-years cutoff that
//! the registration age gate compares against.

use vstd::prelude::*;

verus! {

/// A calendar date. Well-formed values (see [`Date::wf`]) lie between
/// `0000-01-01` and `9999-12-31`, the range the ten-character wire form
/// can carry.
#[derive(Clone, Copy, PartialEq, Eq, Structural, Debug)]
pub struct Date {
    pub year: u32,
    pub month: u32,
    pub day: u32,
}

pub open spec fn spec_is_leap_year(y: int) -> bool {
    y % 4 == 0 && (y % 100 != 0 || y % 400 == 0)
}

pub open spec fn spec_days_in_month(y: int, m: int) -> int {
    if m == 2 {
        if spec_is_leap_year(y) {
            29
        } else {
            28
        }
    } else if m == 4 || m == 6 || m == 9 || m == 11 {
        30
    } else {
        31
    }
}

impl Date {
    /// A real calendar date that the ten-character form can carry.
    pub open spec fn wf(self) -> bool {
        &&& self.year <= 9999
        &&& 1 <= self.month <= 12
        &&& 1 <= self.day <= spec_days_in_month(self.year as int, self.month as int)
    }
}

/// Chronological order: `a` on or before `b`.
pub open spec fn spec_date_le(a: Date, b: Date) -> bool {
    ||| a.year < b.year
    ||| (a.year == b.year && a.month < b.month)
    ||| (a.year == b.year && a.month == b.month && a.day <= b.day)
}

fn days_in_month(y: u32, m: u32) -> (d: u32)
    ensures
        d as int == spec_days_in_month(y as int, m as int),
{
    if m == 2 {
        if y % 4 == 0 && (y % 100 != 0 || y % 400 == 0) {
            29
        } else {
            28
        }
    } else if m == 4 || m == 6 || m == 9 || m == 11 {
        30
    } else {
        31
    }
}

impl Date {
    /// Builds a date from parts, accepting exactly the well-formed ones.
    pub fn new(year: u32, month: u32, day: u32) -> (r: Option<Date>)
        ensures
            ({
                let d = Date { year, month, day };
                if d.wf() {
                    r == Some(d)
                } else {
                    r is None
                }
            }),
    {
        if year <= 9999 && 1 <= month && month <= 12 && 1 <= day && day <= days_in_month(
            year,
            month,
        ) {
            Some(Date { year, month, day })
        } else {
            None
        }
    }

    /// Decides well-formedness, so that an unverified caller can test
    /// it before relying on it.
    pub fn is_wf(&self) -> (r: bool)
        ensures
            r == self.wf(),
    {
        self.year <= 9999 && 1 <= self.month && self.month <= 12 && 1 <= self.day && self.day
            <= days_in_month(self.year, self.month)
    }

    /// Chronological order, decided on the parts.
    pub fn is_on_or_before(&self, other: &Date) -> (r: bool)
        ensures
            r == spec_date_le(*self, *other),
    {
        self.year < other.year || (self.year == other.year && self.month < other.month) || (
        self.year == other.year && self.month == other.month && self.day <= other.day)
    }
}

pub open spec fn spec_is_digit(c: char) -> bool {
    '0' <= c && c <= '9'
}

pub open spec fn spec_digit_val(c: char) -> int {
    c as int - 48
}

/// The shape a date string must have: ten characters, digits in the
/// year, month and day positions, hyphens between them.
pub open spec fn spec_date_shape(s: Seq<char>) -> bool {
    &&& s.len() == 10
    &&& spec_is_digit(s[0]) && spec_is_digit(s[1]) && spec_is_digit(s[2]) && spec_is_digit(s[3])
    &&& s[4] == '-'
    &&& spec_is_digit(s[5]) && spec_is_digit(s[6])
    &&& s[7] == '-'
    &&& spec_is_digit(s[8]) && spec_is_digit(s[9])
}

/// The date a well-shaped string denotes.
pub open spec fn spec_date_value(s: Seq<char>) -> Date {
    Date {
        year: (spec_digit_val(s[0]) * 1000 + spec_digit_val(s[1]) * 100 + spec_digit_val(s[2]) * 10
            + spec_digit_val(s[3])) as u32,
        month: (spec_digit_val(s[5]) * 10 + spec_digit_val(s[6])) as u32,
        day: (spec_digit_val(s[8]) * 10 + spec_digit_val(s[9])) as u32,
    }
}

/// What parsing a birthdate string yields: the denoted date when the
/// string is well-shaped and denotes a real calendar date, nothing
/// otherwise.
pub open spec fn spec_parse_date(s: Seq<char>) -> Option<Date> {
    if spec_date_shape(s) && spec_date_value(s).wf() {
        Some(spec_date_value(s))
    } else {
        None
    }
}

fn digit_val(c: char) -> (v: Option<u32>)
    ensures
        match v {
            Some(d) => spec_is_digit(c) && d as int == spec_digit_val(c) && d <= 9,
            None => !spec_is_digit(c),
        },
{
    if '0' <= c && c <= '9' {
        Some((c as u32) - 48)
    } else {
        None
    }
}

/// Parses the `YYYY-MM-DD` wire form, rejecting anything that is not a
/// real calendar date written in exactly that shape.
pub fn parse_date(s: &str) -> (r: Option<Date>)
    ensures
        r == spec_parse_date(s@),
{
    if s.unicode_len() != 10 {
        return None;
    }
    if s.get_char(4) != '-' || s.get_char(7) != '-' {
        return None;
    }
    let y0 = digit_val(s.get_char(0));
    let y1 = digit_val(s.get_char(1));
    let y2 = digit_val(s.get_char(2));
    let y3 = digit_val(s.get_char(3));
    let m0 = digit_val(s.get_char(5));
    let m1 = digit_val(s.get_char(6));
    let d0 = digit_val(s.get_char(8));
    let d1 = digit_val(s.get_char(9));
    match (y0, y1, y2, y3, m0, m1, d0, d1) {
        (
            Some(y0),
            Some(y1),
            Some(y2),
            Some(y3),
            Some(m0),
            Some(m1),
            Some(d0),
            Some(d1),
        ) => {
            let year = y0 * 1000 + y1 * 100 + y2 * 10 + y3;
            let month = m0 * 10 + m1;
            let day = d0 * 10 + d1;
            Date::new(year, month, day)
        },
        _ => None,
    }
}

/// The cutoff birthdate for the age gate: the date eighteen years
/// before `today`, the day clamped into the shorter February when the
/// eighteenth anniversary of a leap day falls in a common year. Nothing
/// lies eighteen years before the first eighteen years of the calendar.
pub open spec fn spec_adult_cutoff(today: Date) -> Option<Date> {
    if today.year < 18 {
        None
    } else {
        let y = today.year - 18;
        let dim = spec_days_in_month(y as int, today.month as int);
        Some(
            Date {
                year: y as u32,
                month: today.month,
                day: if today.day as int <= dim {
                    today.day
                } else {
                    dim as u32
                },
            },
        )
    }
}

/// The age gate itself: a subject born on `birth` is at least eighteen
/// years old on `today`.
pub open spec fn spec_is_adult(birth: Date, today: Date) -> bool {
    match spec_adult_cutoff(today) {
        Some(cutoff) => spec_date_le(birth, cutoff),
        None => false,
    }
}

/// The date eighteen years before `today`.
pub fn adult_cutoff(today: Date) -> (r: Option<Date>)
    requires
        today.wf(),
    ensures
        r == spec_adult_cutoff(today),
        r matches Some(c) ==> c.wf(),
{
    if today.year < 18 {
        None
    } else {
        let y = today.year - 18;
        let dim = days_in_month(y, today.month);
        let day = if today.day <= dim {
            today.day
        } else {
            dim
        };
        Some(Date { year: y, month: today.month, day })
    }
}

/// Decides the age gate for a parsed birthdate.
pub fn is_adult(birth: &Date, today: &Date) -> (r: bool)
    requires
        today.wf(),
    ensures
        r == spec_is_adult(*birth, *today),
{
    match adult_cutoff(*today) {
        Some(cutoff) => birth.is_on_or_before(&cutoff),
        None => false,
    }
}

} // verus!

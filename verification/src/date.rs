//! Calendar dates carried by person records, and the `YYYY-MM-DD` text form
//! they are read from and written to.

use vstd::prelude::*;

verus! {

/// A calendar date: year, month and day, with no time of day.
#[derive(Clone, Copy, PartialEq, Eq, Structural, Debug)]
pub struct BirthDate {
    pub year: u16,
    pub month: u8,
    pub day: u8,
}

/// Gregorian leap-year rule.
pub open spec fn is_leap_year(y: int) -> bool {
    (y % 4 == 0 && y % 100 != 0) || y % 400 == 0
}

/// Number of days in month `m` of year `y`, for `1 <= m <= 12`.
pub open spec fn days_in_month(y: int, m: int) -> int {
    if m == 2 {
        if is_leap_year(y) {
            29
        } else {
            28
        }
    } else if m == 4 || m == 6 || m == 9 || m == 11 {
        30
    } else {
        31
    }
}

impl BirthDate {
    /// A well-formed date: a four-digit year, an existing month, and a day
    /// that the month actually has.
    pub open spec fn wf(self) -> bool {
        self.year <= 9999 && 1 <= self.month <= 12 && 1 <= self.day <= days_in_month(
            self.year as int,
            self.month as int,
        )
    }
}

fn leap_year(y: u16) -> (r: bool)
    ensures
        r == is_leap_year(y as int),
{
    (y % 4 == 0 && y % 100 != 0) || y % 400 == 0
}

fn month_length(y: u16, m: u8) -> (r: u8)
    requires
        1 <= m <= 12,
    ensures
        r == days_in_month(y as int, m as int),
{
    if m == 2 {
        if leap_year(y) {
            29
        } else {
            28
        }
    } else if m == 4 || m == 6 || m == 9 || m == 11 {
        30
    } else {
        31
    }
}

/// Builds a date after checking that it is well formed; `None` exactly on the
/// inputs that are not.
pub fn make_date(year: u16, month: u8, day: u8) -> (r: Option<BirthDate>)
    ensures
        match r {
            Some(d) => d == (BirthDate { year, month, day }) && d.wf(),
            None => !(BirthDate { year, month, day }).wf(),
        },
{
    if year <= 9999 && 1 <= month && month <= 12 && 1 <= day && day <= month_length(year, month) {
        Some(BirthDate { year, month, day })
    } else {
        None
    }
}

/// `c` is one of the characters `'0'` through `'9'` (code points 48 to 57).
pub open spec fn is_digit(c: char) -> bool {
    48 <= c as int <= 57
}

/// Numeric value of a digit character.
pub open spec fn digit_val(c: char) -> int {
    c as int - 48
}

/// The text is exactly ten characters, `YYYY-MM-DD`.
pub open spec fn date_text_wf(s: Seq<char>) -> bool {
    &&& s.len() == 10
    &&& is_digit(s[0])
    &&& is_digit(s[1])
    &&& is_digit(s[2])
    &&& is_digit(s[3])
    &&& s[4] == '-'
    &&& is_digit(s[5])
    &&& is_digit(s[6])
    &&& s[7] == '-'
    &&& is_digit(s[8])
    &&& is_digit(s[9])
}

pub open spec fn text_year(s: Seq<char>) -> int {
    1000 * digit_val(s[0]) + 100 * digit_val(s[1]) + 10 * digit_val(s[2]) + digit_val(s[3])
}

pub open spec fn text_month(s: Seq<char>) -> int {
    10 * digit_val(s[5]) + digit_val(s[6])
}

pub open spec fn text_day(s: Seq<char>) -> int {
    10 * digit_val(s[8]) + digit_val(s[9])
}

/// The date that a well-formed `YYYY-MM-DD` text denotes.
pub open spec fn date_of_text(s: Seq<char>) -> BirthDate {
    BirthDate { year: text_year(s) as u16, month: text_month(s) as u8, day: text_day(s) as u8 }
}

fn digit(c: char) -> (r: Option<u8>)
    ensures
        match r {
            Some(d) => is_digit(c) && d == digit_val(c),
            None => !is_digit(c),
        },
{
    let v: u32 = c as u32;
    if 48 <= v && v <= 57 {
        Some((v - 48) as u8)
    } else {
        None
    }
}

/// Parses `YYYY-MM-DD` text. Returns `Some` exactly when the text has that
/// shape and denotes a well-formed calendar date.
pub fn parse_date(s: &str) -> (r: Option<BirthDate>)
    ensures
        match r {
            Some(d) => date_text_wf(s@) && d == date_of_text(s@) && d.wf(),
            None => !(date_text_wf(s@) && date_of_text(s@).wf()),
        },
{
    if s.unicode_len() != 10 {
        return None;
    }
    let y0 = digit(s.get_char(0));
    let y1 = digit(s.get_char(1));
    let y2 = digit(s.get_char(2));
    let y3 = digit(s.get_char(3));
    let m0 = digit(s.get_char(5));
    let m1 = digit(s.get_char(6));
    let d0 = digit(s.get_char(8));
    let d1 = digit(s.get_char(9));
    if s.get_char(4) != '-' || s.get_char(7) != '-' {
        return None;
    }
    match (y0, y1, y2, y3, m0, m1, d0, d1) {
        (Some(a), Some(b), Some(c), Some(d), Some(e), Some(f), Some(g), Some(h)) => {
            let year: u16 = 1000 * (a as u16) + 100 * (b as u16) + 10 * (c as u16) + (d as u16);
            let month: u8 = 10 * e + f;
            let day: u8 = 10 * g + h;
            make_date(year, month, day)
        },
        _ => None,
    }
}

/// The digit character with value `v`.
pub open spec fn digit_char(v: int) -> char {
    if v == 0 {
        '0'
    } else if v == 1 {
        '1'
    } else if v == 2 {
        '2'
    } else if v == 3 {
        '3'
    } else if v == 4 {
        '4'
    } else if v == 5 {
        '5'
    } else if v == 6 {
        '6'
    } else if v == 7 {
        '7'
    } else if v == 8 {
        '8'
    } else {
        '9'
    }
}

/// The ten-character `YYYY-MM-DD` text of a well-formed date.
pub open spec fn date_text(d: BirthDate) -> Seq<char> {
    seq![
        digit_char(d.year as int / 1000),
        digit_char((d.year as int / 100) % 10),
        digit_char((d.year as int / 10) % 10),
        digit_char(d.year as int % 10),
        '-',
        digit_char(d.month as int / 10),
        digit_char(d.month as int % 10),
        '-',
        digit_char(d.day as int / 10),
        digit_char(d.day as int % 10),
    ]
}

fn digit_str(v: u8) -> (r: &'static str)
    requires
        v < 10,
    ensures
        r@.len() == 1,
        r@[0] == digit_char(v as int),
{
    proof {
        reveal_strlit("0");
        reveal_strlit("1");
        reveal_strlit("2");
        reveal_strlit("3");
        reveal_strlit("4");
        reveal_strlit("5");
        reveal_strlit("6");
        reveal_strlit("7");
        reveal_strlit("8");
        reveal_strlit("9");
    }
    match v {
        0 => "0",
        1 => "1",
        2 => "2",
        3 => "3",
        4 => "4",
        5 => "5",
        6 => "6",
        7 => "7",
        8 => "8",
        _ => "9",
    }
}

/// Writes a well-formed date as `YYYY-MM-DD` text.
pub fn format_date(d: &BirthDate) -> (r: String)
    requires
        d.wf(),
    ensures
        r@ == date_text(*d),
{
    proof {
        reveal_strlit("-");
    }
    let mut out = String::new();
    out.append(digit_str((d.year / 1000) as u8));
    out.append(digit_str(((d.year / 100) % 10) as u8));
    out.append(digit_str(((d.year / 10) % 10) as u8));
    out.append(digit_str((d.year % 10) as u8));
    out.append("-");
    out.append(digit_str(d.month / 10));
    out.append(digit_str(d.month % 10));
    out.append("-");
    out.append(digit_str(d.day / 10));
    out.append(digit_str(d.day % 10));
    proof {
        assert(out@ =~= date_text(*d));
    }
    out
}

} // verus!

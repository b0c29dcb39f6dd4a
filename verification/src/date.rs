//! Calendar dates carried by the acquisition-date attribute, in the
//! fixed eight-digit `YYYYMMDD` textual form.

use vstd::prelude::*;

verus! {

/// A calendar date as year, month and day.
#[derive(Clone, Copy, PartialEq, Eq, Structural, Debug)]
pub struct Ymd {
    pub year: u32,
    pub month: u32,
    pub day: u32,
}

/// A year is a leap year exactly when divisible by 4, except century
/// years, which must also be divisible by 400.
pub open spec fn is_leap_year(y: int) -> bool {
    y % 4 == 0 && (y % 100 != 0 || y % 400 == 0)
}

/// Number of days in month `m` of year `y`.
pub open spec fn days_in_month(y: int, m: int) -> int {
    if m == 2 {
        if is_leap_year(y) {
            29
        } else {
            28
        }
    } else if m == 4 || m == 6 || m == 9 || m == 11 {
        30
    } else {
        31
    }
}

/// A (year, month, day) triple names a real calendar date that the
/// eight-digit form can carry.
pub open spec fn valid_ymd(y: int, m: int, d: int) -> bool {
    &&& 0 <= y <= 9999
    &&& 1 <= m <= 12
    &&& 1 <= d <= days_in_month(y, m)
}

impl Ymd {
    /// The date names a real calendar date.
    pub open spec fn valid(self) -> bool {
        valid_ymd(self.year as int, self.month as int, self.day as int)
    }
}

/// An ASCII decimal digit.
pub open spec fn is_digit(c: char) -> bool {
    48 <= c as int <= 57
}

/// Numeric value of an ASCII decimal digit.
pub open spec fn digit_val(c: char) -> int {
    c as int - 48
}

/// The year encoded by the first four characters of an eight-digit date.
pub open spec fn year_of(s: Seq<char>) -> int
    recommends
        s.len() == 8,
{
    digit_val(s[0]) * 1000 + digit_val(s[1]) * 100 + digit_val(s[2]) * 10 + digit_val(s[3])
}

/// The month encoded by characters four and five.
pub open spec fn month_of(s: Seq<char>) -> int
    recommends
        s.len() == 8,
{
    digit_val(s[4]) * 10 + digit_val(s[5])
}

/// The day encoded by the last two characters.
pub open spec fn day_of(s: Seq<char>) -> int
    recommends
        s.len() == 8,
{
    digit_val(s[6]) * 10 + digit_val(s[7])
}

/// The string is exactly eight ASCII digits and encodes a real
/// calendar date.
pub open spec fn date_str_valid(s: Seq<char>) -> bool {
    &&& s.len() == 8
    &&& forall|i: int| 0 <= i < 8 ==> is_digit(#[trigger] s[i])
    &&& valid_ymd(year_of(s), month_of(s), day_of(s))
}

/// Whether `y` is a leap year.
pub fn leap_year(y: u32) -> (r: bool)
    ensures
        r == is_leap_year(y as int),
{
    y % 4 == 0 && (y % 100 != 0 || y % 400 == 0)
}

/// Number of days in month `m` of year `y`.
pub fn month_length(y: u32, m: u32) -> (r: u32)
    ensures
        r == days_in_month(y as int, m as int),
{
    if m == 2 {
        if leap_year(y) {
            29
        } else {
            28
        }
    } else if m == 4 || m == 6 || m == 9 || m == 11 {
        30
    } else {
        31
    }
}

/// Reads one character of `s` and returns its digit value, or `None`
/// where it is not an ASCII digit.
fn read_digit(s: &str, i: usize) -> (r: Option<u32>)
    requires
        i < s@.len(),
    ensures
        r matches Some(v) ==> is_digit(s@[i as int]) && v == digit_val(s@[i as int]),
        r is None ==> !is_digit(s@[i as int]),
{
    let c = s.get_char(i);
    let v = c as u32;
    if 48 <= v && v <= 57 {
        Some(v - 48)
    } else {
        None
    }
}

/// Parses an acquisition-date attribute value. Returns the date
/// exactly when the value is eight ASCII digits naming a real
/// calendar date; every other value is rejected.
pub fn parse_acquisition_date(s: &str) -> (r: Option<Ymd>)
    ensures
        r is Some <==> date_str_valid(s@),
        r matches Some(d) ==> {
            &&& d.year == year_of(s@)
            &&& d.month == month_of(s@)
            &&& d.day == day_of(s@)
            &&& d.valid()
        },
{
    if s.unicode_len() != 8 {
        return None;
    }
    let d0 = read_digit(s, 0);
    let d1 = read_digit(s, 1);
    let d2 = read_digit(s, 2);
    let d3 = read_digit(s, 3);
    let d4 = read_digit(s, 4);
    let d5 = read_digit(s, 5);
    let d6 = read_digit(s, 6);
    let d7 = read_digit(s, 7);
    match (d0, d1, d2, d3, d4, d5, d6, d7) {
        (Some(v0), Some(v1), Some(v2), Some(v3), Some(v4), Some(v5), Some(v6), Some(v7)) => {
            let year = v0 * 1000 + v1 * 100 + v2 * 10 + v3;
            let month = v4 * 10 + v5;
            let day = v6 * 10 + v7;
            assert(forall|i: int| 0 <= i < 8 ==> is_digit(#[trigger] s@[i]));
            if 1 <= month && month <= 12 && 1 <= day && day <= month_length(year, month) {
                Some(Ymd { year, month, day })
            } else {
                None
            }
        },
        _ => None,
    }
}

} // verus!

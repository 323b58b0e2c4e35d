//! Calendar dates in the proleptic Gregorian calendar, over the range chrono's
//! `NaiveDate` covers, with the day arithmetic the booking rules need, and
//! chrono's own text rendering for what people read.

use crate::text::decimal;
use vstd::prelude::*;

verus! {

/// Earliest year a date may carry (chrono's `NaiveDate` range).
pub const MIN_YEAR: i32 = -262143;

/// Latest year a date may carry (chrono's `NaiveDate` range).
pub const MAX_YEAR: i32 = 262142;

pub open spec fn is_leap(y: int) -> bool {
    (y % 4 == 0 && y % 100 != 0) || y % 400 == 0
}

pub open spec fn days_in_month(y: int, m: int) -> int {
    if m == 2 {
        if is_leap(y) {
            29
        } else {
            28
        }
    } else if m == 4 || m == 6 || m == 9 || m == 11 {
        30
    } else {
        31
    }
}

/// A real calendar day inside chrono's range.
pub open spec fn valid_ymd(y: int, m: int, d: int) -> bool {
    &&& MIN_YEAR <= y <= MAX_YEAR
    &&& 1 <= m <= 12
    &&& 1 <= d <= days_in_month(y, m)
}

/// Days from 1970-01-01 to the given day (negative before it).
///
/// The count runs over 400-year eras of 146097 days, with years starting in
/// March so the leap day falls last; the year is shifted by a whole number
/// of eras first so every quantity below is non-negative.
pub open spec fn days_from_civil(y: int, m: int, d: int) -> int {
    let y2 = if m <= 2 {
        y - 1
    } else {
        y
    } + 262400;
    let era = y2 / 400;
    let yoe = y2 - era * 400;
    let mp = if m > 2 {
        m - 3
    } else {
        m + 9
    };
    let doy = (153 * mp + 2) / 5 + d - 1;
    let doe = yoe * 365 + yoe / 4 - yoe / 100 + doy;
    era * 146097 + doe - 719468 - 95839632
}

/// Day of the week counted from Sunday (0) to Saturday (6).
pub open spec fn weekday_from_sunday(y: int, m: int, d: int) -> int {
    (days_from_civil(y, m, d) + 4) % 7
}

/// `a` falls strictly before `b`.
pub open spec fn ymd_before(a: (int, int, int), b: (int, int, int)) -> bool {
    ||| a.0 < b.0
    ||| (a.0 == b.0 && a.1 < b.1)
    ||| (a.0 == b.0 && a.1 == b.1 && a.2 < b.2)
}

/// The renderings of a date the service uses: "Oct 1", "Oct 5, 2026" and
/// "Thu, Oct 1, 2026".
pub open spec fn supported_format(fmt: Seq<char>) -> bool {
    ||| fmt == "%b %-d"@
    ||| fmt == "%b %-d, %Y"@
    ||| fmt == "%a, %b %-d, %Y"@
}

/// chrono's English short month name: "Jan" through "Dec".
pub open spec fn month_abbrev(m: int) -> Seq<char> {
    if m == 1 {
        "Jan"@
    } else if m == 2 {
        "Feb"@
    } else if m == 3 {
        "Mar"@
    } else if m == 4 {
        "Apr"@
    } else if m == 5 {
        "May"@
    } else if m == 6 {
        "Jun"@
    } else if m == 7 {
        "Jul"@
    } else if m == 8 {
        "Aug"@
    } else if m == 9 {
        "Sep"@
    } else if m == 10 {
        "Oct"@
    } else if m == 11 {
        "Nov"@
    } else {
        "Dec"@
    }
}

/// chrono's English short weekday name, counted from Sunday.
pub open spec fn weekday_abbrev(w: int) -> Seq<char> {
    if w == 0 {
        "Sun"@
    } else if w == 1 {
        "Mon"@
    } else if w == 2 {
        "Tue"@
    } else if w == 3 {
        "Wed"@
    } else if w == 4 {
        "Thu"@
    } else if w == 5 {
        "Fri"@
    } else {
        "Sat"@
    }
}

/// `n` in decimal, zero-padded to four digits.
pub open spec fn four_digits(n: nat) -> Seq<char> {
    if n < 10 {
        "000"@ + decimal(n)
    } else if n < 100 {
        "00"@ + decimal(n)
    } else if n < 1000 {
        "0"@ + decimal(n)
    } else {
        decimal(n)
    }
}

/// chrono's `%Y`: four digits (zero-padded) for years 0 through 9999, and a
/// sign before at least four digits outside them.
pub open spec fn year_text(y: int) -> Seq<char> {
    if 0 <= y <= 9999 {
        four_digits(y as nat)
    } else if y > 9999 {
        "+"@ + decimal(y as nat)
    } else {
        "-"@ + four_digits((-y) as nat)
    }
}

/// What chrono's `NaiveDate::format` renders for a day and one of the
/// supported patterns: `%a` and `%b` are the English short weekday and month
/// names, `%-d` the day without padding, `%Y` as [`year_text`].
#[verifier::opaque]
pub open spec fn chrono_date_text(y: int, m: int, d: int, fmt: Seq<char>) -> Seq<char> {
    let md = month_abbrev(m) + " "@ + decimal(d as nat);
    if fmt == "%b %-d"@ {
        md
    } else if fmt == "%b %-d, %Y"@ {
        md + ", "@ + year_text(y)
    } else {
        weekday_abbrev(weekday_from_sunday(y, m, d)) + ", "@ + md + ", "@ + year_text(y)
    }
}

/// A calendar day.
#[derive(Debug, Clone, Copy, PartialEq, Eq, Structural)]
pub struct Date {
    year: i32,
    month: u32,
    day: u32,
}

impl Date {

    pub closed spec fn y(self) -> int {
        self.year as int
    }

    pub closed spec fn m(self) -> int {
        self.month as int
    }

    pub closed spec fn d(self) -> int {
        self.day as int
    }

    /// The date as (year, month, day).
    pub open spec fn ymd(self) -> (int, int, int) {
        (self.y(), self.m(), self.d())
    }

    /// Every `Date` is a real day in range.
    #[verifier::type_invariant]
    pub open spec fn valid(self) -> bool {
        valid_ymd(self.y(), self.m(), self.d())
    }

    /// The day `year`-`month`-`day`, when it exists.
    pub fn from_ymd_opt(year: i32, month: u32, day: u32) -> (r: Option<Date>)
        ensures
            r is Some <==> valid_ymd(year as int, month as int, day as int),
            r matches Some(d) ==> d.ymd() == (year as int, month as int, day as int),
    {
        if year < MIN_YEAR || year > MAX_YEAR || month < 1 || month > 12 || day < 1 {
            return None;
        }
        let dim = month_length(year, month);
        if day > dim {
            return None;
        }
        Some(Date { year, month, day })
    }

    pub fn year(&self) -> (y: i32)
        ensures
            y == self.y(),
    {
        self.year
    }

    pub fn month(&self) -> (m: u32)
        ensures
            m == self.m(),
    {
        self.month
    }

    pub fn day(&self) -> (d: u32)
        ensures
            d == self.d(),
    {
        self.day
    }

    /// Whether `self` falls strictly before `other`.
    pub fn is_before(&self, other: &Date) -> (b: bool)
        ensures
            b == ymd_before(self.ymd(), other.ymd()),
    {
        self.year < other.year || (self.year == other.year && self.month < other.month) || (
        self.year == other.year && self.month == other.month && self.day < other.day)
    }

    /// Days since 1970-01-01.
    pub fn days_since_epoch(&self) -> (n: i64)
        ensures
            n == days_from_civil(self.y(), self.m(), self.d()),
            -100_000_000 < n < 100_000_000,
    {
        proof {
            use_type_invariant(self);
        }
        let y: i64 = self.year as i64;
        let m: i64 = self.month as i64;
        let d: i64 = self.day as i64;
        let y2: i64 = if m <= 2 {
            y - 1
        } else {
            y
        } + 262400;
        let era: i64 = y2 / 400;
        let yoe: i64 = y2 - era * 400;
        let mp: i64 = if m > 2 {
            m - 3
        } else {
            m + 9
        };
        let doy: i64 = (153 * mp + 2) / 5 + d - 1;
        let doe: i64 = yoe * 365 + yoe / 4 - yoe / 100 + doy;
        proof {
            assert(0 <= y2 <= 524543);
            assert(0 <= era <= 1312) by (nonlinear_arith)
                requires
                    0 <= y2 <= 524543,
                    era == y2 / 400,
            ;
            assert(0 <= yoe < 400) by (nonlinear_arith)
                requires
                    0 <= y2,
                    era == y2 / 400,
                    yoe == y2 - era * 400,
            ;
            assert(0 <= doy < 366);
            assert(0 <= era * 146097 <= 1312 * 146097) by (nonlinear_arith)
                requires
                    0 <= era <= 1312,
            ;
            assert(0 <= yoe * 365 <= 399 * 365) by (nonlinear_arith)
                requires
                    0 <= yoe < 400,
            ;
        }
        era * 146097 + doe - 719468 - 95839632
    }

    /// Day of the week, Sunday = 0 through Saturday = 6.
    pub fn weekday_from_sunday(&self) -> (w: u32)
        ensures
            w == weekday_from_sunday(self.y(), self.m(), self.d()),
            w < 7,
    {
        let n = self.days_since_epoch();
        let w: i64 = (n + 4 + 105_000_000) % 7;
        proof {
            vstd::arithmetic::div_mod::lemma_mod_multiples_vanish(15_000_000, n + 4, 7);
            assert(7 * 15_000_000 + (n + 4) == n + 4 + 105_000_000);
        }
        w as u32
    }

    /// Whole days from `earlier` to `self` (negative when `self` is earlier).
    pub fn days_after(&self, earlier: &Date) -> (n: i64)
        ensures
            n == days_from_civil(self.y(), self.m(), self.d()) - days_from_civil(
                earlier.y(),
                earlier.m(),
                earlier.d(),
            ),
    {
        self.days_since_epoch() - earlier.days_since_epoch()
    }

    /// The date rendered by chrono's `format` with one of the service's
    /// patterns.
    pub fn format(&self, fmt: &str) -> (s: String)
        requires
            supported_format(fmt@),
        ensures
            s@ == chrono_date_text(self.y(), self.m(), self.d(), fmt@),
    {
        proof {
            use_type_invariant(self);
        }
        chrono_format(self.year, self.month, self.day, fmt)
    }
}

/// Number of days in `month` of `year`.
pub fn month_length(year: i32, month: u32) -> (n: u32)
    requires
        1 <= month <= 12,
    ensures
        n == days_in_month(year as int, month as int),
{
    if month == 2 {
        if (year % 4 == 0 && year % 100 != 0) || year % 400 == 0 {
            29
        } else {
            28
        }
    } else if month == 4 || month == 6 || month == 9 || month == 11 {
        30
    } else {
        31
    }
}

/// Calls chrono's `NaiveDate::from_ymd_opt(year, month, day)` and renders the
/// day with `NaiveDate::format(fmt)`, in chrono's default (English) locale.
#[verifier::external_body]
fn chrono_format(year: i32, month: u32, day: u32, fmt: &str) -> (s: String)
    requires
        valid_ymd(year as int, month as int, day as int),
        supported_format(fmt@),
    ensures
        s@ == chrono_date_text(year as int, month as int, day as int, fmt@),
{
    let date = chrono::NaiveDate::from_ymd_opt(year, month, day).unwrap();
    date.format(fmt).to_string()
}

} // verus!

//! US holiday markers for the calendar: computed in closed form for any year,
//! never stored. A holiday is a label on a day; nothing here touches booking
//! availability or capacity.

use crate::dates::{Date, MAX_YEAR, MIN_YEAR, days_from_civil, days_in_month, valid_ymd, weekday_from_sunday, ymd_before};
use vstd::prelude::*;

verus! {

pub const SUNDAY: u32 = 0;
pub const MONDAY: u32 = 1;
pub const THURSDAY: u32 = 4;

#[derive(Debug, Clone)]
pub struct Holiday {
    pub date: Date,
    pub name: &'static str,
}

/// `d` is the `n`th `weekday` of its month (the first falls on days 1–7,
/// the second on 8–14, and so on).
pub open spec fn is_nth_weekday(d: (int, int, int), weekday: int, n: int) -> bool {
    &&& weekday_from_sunday(d.0, d.1, d.2) == weekday
    &&& 7 * (n - 1) < d.2 <= 7 * n
}

/// `d` is the last `weekday` of its month.
pub open spec fn is_last_weekday(d: (int, int, int), weekday: int) -> bool {
    &&& weekday_from_sunday(d.0, d.1, d.2) == weekday
    &&& days_in_month(d.0, d.1) - 7 < d.2 <= days_in_month(d.0, d.1)
}

proof fn lemma_days_in_month_same(y: int, m: int, d: int)
    requires
        1 <= m <= 12,
    ensures
        days_from_civil(y, m, d) == days_from_civil(y, m, 1) + d - 1,
{
}

proof fn lemma_weekday_shift(y: int, m: int, d: int)
    requires
        1 <= m <= 12,
        d >= 1,
    ensures
        weekday_from_sunday(y, m, d) == (weekday_from_sunday(y, m, 1) + d - 1) % 7,
{
    lemma_days_in_month_same(y, m, d);
    let a = days_from_civil(y, m, 1) + 4;
    vstd::arithmetic::div_mod::lemma_add_mod_noop(a, d - 1, 7);
    vstd::arithmetic::div_mod::lemma_mod_twice(a, 7);
    vstd::arithmetic::div_mod::lemma_add_mod_noop(a % 7, d - 1, 7);
}

/// The `n`th `weekday` (Sunday = 0) of `month` in `year`, e.g. the third
/// Monday of January.
fn nth_weekday(year: i32, month: u32, weekday: u32, n: u32) -> (r: Date)
    requires
        MIN_YEAR <= year <= MAX_YEAR,
        1 <= month <= 12,
        weekday < 7,
        1 <= n <= 4,
    ensures
        r.ymd().0 == year && r.ymd().1 == month,
        is_nth_weekday(r.ymd(), weekday as int, n as int),
{
    let first = Date::from_ymd_opt(year, month, 1).unwrap();
    let w1 = first.weekday_from_sunday();
    let offset: u32 = (7 + weekday - w1) % 7;
    let day: u32 = 1 + offset + 7 * (n - 1);
    proof {
        assert(days_in_month(year as int, month as int) >= 28);
        lemma_weekday_shift(year as int, month as int, day as int);
        let t = weekday as int;
        let w = w1 as int;
        let k = n as int - 1;
        assert((w + offset + 7 * k) % 7 == t) by (nonlinear_arith)
            requires
                0 <= w < 7,
                0 <= t < 7,
                0 <= k,
                offset == (7 + t - w) % 7,
        {
            vstd::arithmetic::div_mod::lemma_mod_multiples_vanish(k, w + offset, 7);
            assert(7 * k + (w + offset) == w + offset + 7 * k);
            if t >= w {
                vstd::arithmetic::div_mod::lemma_mod_multiples_vanish(1, t - w, 7);
                vstd::arithmetic::div_mod::lemma_small_mod((t - w) as nat, 7);
            } else {
                vstd::arithmetic::div_mod::lemma_small_mod((7 + t - w) as nat, 7);
                vstd::arithmetic::div_mod::lemma_mod_multiples_vanish(1, t, 7);
                vstd::arithmetic::div_mod::lemma_small_mod(t as nat, 7);
            }
        }
    }
    Date::from_ymd_opt(year, month, day).unwrap()
}

/// The last `weekday` (Sunday = 0) of `month` in `year`, e.g. the last
/// Monday of May.
fn last_weekday_of_month(year: i32, month: u32, weekday: u32) -> (r: Date)
    requires
        MIN_YEAR <= year <= MAX_YEAR,
        1 <= month <= 12,
        weekday < 7,
    ensures
        r.ymd().0 == year && r.ymd().1 == month,
        is_last_weekday(r.ymd(), weekday as int),
{
    let dim = crate::dates::month_length(year, month);
    let last = Date::from_ymd_opt(year, month, dim).unwrap();
    let wl = last.weekday_from_sunday();
    let back: u32 = (wl + 7 - weekday) % 7;
    let day: u32 = dim - back;
    proof {
        lemma_weekday_shift(year as int, month as int, day as int);
        lemma_weekday_shift(year as int, month as int, dim as int);
        let t = weekday as int;
        let w = wl as int;
        let f = weekday_from_sunday(year as int, month as int, 1);
        assert(0 <= f < 7);
        assert(w == (f + dim - 1) % 7);
        assert((f + day - 1) % 7 == t) by (nonlinear_arith)
            requires
                0 <= f < 7,
                0 <= t < 7,
                w == (f + dim - 1) % 7,
                back == (w + 7 - t) % 7,
                day == dim - back,
                dim >= 28,
        {
            let a = f + dim - 1;
            vstd::arithmetic::div_mod::lemma_fundamental_div_mod(a, 7);
            let q = a / 7;
            assert(a == 7 * q + w);
            if w >= t {
                vstd::arithmetic::div_mod::lemma_mod_multiples_vanish(1, w - t, 7);
                vstd::arithmetic::div_mod::lemma_small_mod((w - t) as nat, 7);
                assert(f + day - 1 == 7 * q + t);
            } else {
                vstd::arithmetic::div_mod::lemma_small_mod((w + 7 - t) as nat, 7);
                assert(f + day - 1 == 7 * (q - 1) + t);
            }
            vstd::arithmetic::div_mod::lemma_mod_multiples_vanish(f + day - 1 - t, 0, 7) ;
            vstd::arithmetic::div_mod::lemma_fundamental_div_mod(f + day - 1, 7);
            vstd::arithmetic::div_mod::lemma_small_mod(t as nat, 7);
            if w >= t {
                vstd::arithmetic::div_mod::lemma_mod_multiples_vanish(q, t, 7);
            } else {
                vstd::arithmetic::div_mod::lemma_mod_multiples_vanish(q - 1, t, 7);
            }
        }
    }
    Date::from_ymd_opt(year, month, day).unwrap()
}

/// The holiday at position `i` of a year's list, by name and the rule that
/// fixes its day.
pub open spec fn holiday_rule(year: int, i: int, name: Seq<char>, d: (int, int, int)) -> bool {
    d.0 == year && if i == 0 {
        name == "New Year's Day"@ && d.1 == 1 && d.2 == 1
    } else if i == 1 {
        name == "MLK Day"@ && d.1 == 1 && is_nth_weekday(d, 1, 3)
    } else if i == 2 {
        name == "Presidents Day"@ && d.1 == 2 && is_nth_weekday(d, 1, 3)
    } else if i == 3 {
        name == "Memorial Day"@ && d.1 == 5 && is_last_weekday(d, 1)
    } else if i == 4 {
        name == "Juneteenth"@ && d.1 == 6 && d.2 == 19
    } else if i == 5 {
        name == "Independence Day"@ && d.1 == 7 && d.2 == 4
    } else if i == 6 {
        name == "Labor Day"@ && d.1 == 9 && is_nth_weekday(d, 1, 1)
    } else if i == 7 {
        name == "Veterans Day"@ && d.1 == 11 && d.2 == 11
    } else if i == 8 {
        name == "Thanksgiving"@ && d.1 == 11 && is_nth_weekday(d, 4, 4)
    } else {
        name == "Christmas Day"@ && d.1 == 12 && d.2 == 25
    }
}

/// The standard US holiday set for `year`, in calendar order.
pub fn us_holidays(year: i32) -> (h: Vec<Holiday>)
    requires
        MIN_YEAR <= year <= MAX_YEAR,
    ensures
        h@.len() == 10,
        forall|i: int| 0 <= i < 10 ==> holiday_rule(year as int, i, (#[trigger] h@[i]).name@, h@[i].date.ymd()),
{
    let mut h: Vec<Holiday> = Vec::new();
    h.push(Holiday { date: Date::from_ymd_opt(year, 1, 1).unwrap(), name: "New Year's Day" });
    h.push(Holiday { date: nth_weekday(year, 1, MONDAY, 3), name: "MLK Day" });
    h.push(Holiday { date: nth_weekday(year, 2, MONDAY, 3), name: "Presidents Day" });
    h.push(Holiday { date: last_weekday_of_month(year, 5, MONDAY), name: "Memorial Day" });
    h.push(Holiday { date: Date::from_ymd_opt(year, 6, 19).unwrap(), name: "Juneteenth" });
    h.push(Holiday { date: Date::from_ymd_opt(year, 7, 4).unwrap(), name: "Independence Day" });
    h.push(Holiday { date: nth_weekday(year, 9, MONDAY, 1), name: "Labor Day" });
    h.push(Holiday { date: Date::from_ymd_opt(year, 11, 11).unwrap(), name: "Veterans Day" });
    h.push(Holiday { date: nth_weekday(year, 11, THURSDAY, 4), name: "Thanksgiving" });
    h.push(Holiday { date: Date::from_ymd_opt(year, 12, 25).unwrap(), name: "Christmas Day" });
    proof {
        reveal_strlit("New Year's Day");
        reveal_strlit("MLK Day");
        reveal_strlit("Presidents Day");
        reveal_strlit("Memorial Day");
        reveal_strlit("Juneteenth");
        reveal_strlit("Independence Day");
        reveal_strlit("Labor Day");
        reveal_strlit("Veterans Day");
        reveal_strlit("Thanksgiving");
        reveal_strlit("Christmas Day");
    }
    h
}

/// A year's holidays come back strictly in calendar order, ten of them, each
/// floating one on its weekday.
pub proof fn law_holidays_in_calendar_order(year: int, h: Seq<Holiday>)
    requires
        h.len() == 10,
        forall|i: int| 0 <= i < 10 ==> holiday_rule(year, i, (#[trigger] h[i]).name@, h[i].date.ymd()),
    ensures
        forall|i: int| 0 <= i < 9 ==> ymd_before((#[trigger] h[i]).date.ymd(), h[i + 1].date.ymd()),
{
    assert forall|i: int| 0 <= i < 9 implies ymd_before((#[trigger] h[i]).date.ymd(), h[i + 1].date.ymd()) by {
        assert(holiday_rule(year, i, h[i].name@, h[i].date.ymd()));
        assert(holiday_rule(year, i + 1, h[i + 1].name@, h[i + 1].date.ymd()));
    }
}

} // verus!

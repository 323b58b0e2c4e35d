//! The whole-number side of the fishing forecast: how a moon phase, a
//! pressure trend and the wind combine into a star rating and its label.

use crate::text::str_eq;
use vstd::prelude::*;

verus! {

/// Stars a moon phase is worth before the weather adjusts it.
pub open spec fn phase_baseline_spec(phase: Seq<char>) -> int {
    if phase == "New Moon"@ || phase == "Full Moon"@ {
        5
    } else if phase == "First Quarter"@ || phase == "Last Quarter"@ {
        3
    } else {
        4
    }
}

pub fn phase_baseline(phase: &str) -> (s: i32)
    ensures
        s == phase_baseline_spec(phase@),
{
    if str_eq(phase, "New Moon") || str_eq(phase, "Full Moon") {
        5
    } else if str_eq(phase, "First Quarter") || str_eq(phase, "Last Quarter") {
        3
    } else {
        4
    }
}

/// The syzygies (new and full moon) are worth five stars and the two
/// quarters three; every other phase name (the crescents and the gibbous
/// moons alike) is worth four, so on a steady, calm day it rates "Good".
pub proof fn law_phase_baselines(phase: Seq<char>)
    ensures
        (phase == "New Moon"@ || phase == "Full Moon"@) ==> phase_baseline_spec(phase) == 5,
        (phase == "First Quarter"@ || phase == "Last Quarter"@) ==> phase_baseline_spec(phase) == 3,
        (phase != "New Moon"@ && phase != "Full Moon"@ && phase != "First Quarter"@ && phase
            != "Last Quarter"@) ==> phase_baseline_spec(phase) == 4 && clamp_stars(phase_baseline_spec(phase) + 0
            + 0) == 4 && rating_label_spec(clamp_stars(phase_baseline_spec(phase))) == "Good"@,
{
    reveal_strlit("New Moon");
    reveal_strlit("Full Moon");
    reveal_strlit("First Quarter");
    reveal_strlit("Last Quarter");
    assert("First Quarter"@.len() != "New Moon"@.len() && "First Quarter"@.len() != "Full Moon"@.len());
    assert("Last Quarter"@.len() != "New Moon"@.len() && "Last Quarter"@.len() != "Full Moon"@.len());
}

pub open spec fn rating_label_spec(stars: int) -> Seq<char> {
    if stars == 5 {
        "Excellent"@
    } else if stars == 4 {
        "Good"@
    } else if stars == 3 {
        "Fair"@
    } else {
        "Poor"@
    }
}

pub fn rating_label(stars: i32) -> (l: &'static str)
    ensures
        l@ == rating_label_spec(stars as int),
{
    if stars == 5 {
        "Excellent"
    } else if stars == 4 {
        "Good"
    } else if stars == 3 {
        "Fair"
    } else {
        "Poor"
    }
}

pub open spec fn clamp_stars(n: int) -> int {
    if n < 1 {
        1
    } else if n > 5 {
        5
    } else {
        n
    }
}

/// The phase baseline plus the pressure and wind adjustments, held to one
/// through five stars.
pub fn star_rating(phase: &str, pressure_mod: i32, wind_mod: i32) -> (s: i32)
    ensures
        s == clamp_stars(phase_baseline_spec(phase@) + pressure_mod + wind_mod),
        1 <= s <= 5,
{
    let total: i64 = phase_baseline(phase) as i64 + pressure_mod as i64 + wind_mod as i64;
    if total < 1 {
        1
    } else if total > 5 {
        5
    } else {
        total as i32
    }
}

/// A falling barometer is good for the bite, a rising one bad; anything else
/// (steady, or no reading) leaves the rating alone.
pub open spec fn pressure_modifier_spec(trend: Seq<char>) -> int {
    if trend == "falling"@ {
        1
    } else if trend == "rising"@ {
        -1
    } else {
        0
    }
}

/// The star adjustment for a barometric trend.
pub fn pressure_modifier(trend: &str) -> (m: i32)
    ensures
        m == pressure_modifier_spec(trend@),
{
    if str_eq(trend, "falling") {
        1
    } else if str_eq(trend, "rising") {
        -1
    } else {
        0
    }
}

/// The star adjustment for the wind: one off on a windy day, none otherwise.
pub fn wind_modifier(windy: bool) -> (m: i32)
    ensures
        m == if windy { -1int } else { 0int },
{
    if windy {
        -1
    } else {
        0
    }
}

/// Days the forecast covers at most, and by default.
pub const MAX_DAYS: i64 = 14;

pub const DEFAULT_DAYS: i64 = 7;

/// How many days to return: the request (a week when absent), held to one
/// through [`MAX_DAYS`].
pub fn forecast_days(requested: Option<i64>) -> (d: i64)
    ensures
        d == match requested {
            Some(n) => if n < 1 {
                1
            } else if n > MAX_DAYS {
                MAX_DAYS as int
            } else {
                n as int
            },
            None => DEFAULT_DAYS as int,
        },
        1 <= d <= MAX_DAYS,
{
    match requested {
        Some(n) => {
            if n < 1 {
                1
            } else if n > MAX_DAYS {
                MAX_DAYS
            } else {
                n
            }
        },
        None => DEFAULT_DAYS,
    }
}

/// Better conditions never lower the rating.
pub proof fn law_rating_is_monotone(base: int, p1: int, p2: int, w1: int, w2: int)
    requires
        p1 <= p2,
        w1 <= w2,
    ensures
        clamp_stars(base + p1 + w1) <= clamp_stars(base + p2 + w2),
{
}

} // verus!

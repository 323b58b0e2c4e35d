//! Requests to the public tide service.

use vstd::prelude::*;

verus! {

pub open spec fn tide_curve_url_spec(station: Seq<char>, begin: Seq<char>) -> Seq<char> {
    "https://api.tidesandcurrents.noaa.gov/api/prod/datagetter?product=predictions&application=dulacmycamp&begin_date="@
        + begin + "&range=48&datum=MLLW&station="@ + station
        + "&time_zone=lst_ldt&units=english&interval=h&format=json"@
}

/// URL for a continuous hourly prediction window: `interval=h`, `range=48`
/// hours from `begin`.
pub fn tide_curve_url(station: &str, begin: &str) -> (u: String)
    ensures
        u@ == tide_curve_url_spec(station@, begin@),
{
    let mut u = String::from_str(
        "https://api.tidesandcurrents.noaa.gov/api/prod/datagetter?product=predictions&application=dulacmycamp&begin_date=",
    );
    u.append(begin);
    u.append("&range=48&datum=MLLW&station=");
    u.append(station);
    u.append("&time_zone=lst_ldt&units=english&interval=h&format=json");
    u
}

} // verus!

verus! {

/// What the forecast-day pairing reads of one forecast period.
#[derive(Debug, Clone, Copy, PartialEq, Eq, Structural)]
pub struct PeriodFacts {
    /// `isDaytime`, when the period carries it.
    pub is_daytime: Option<bool>,
    /// `temperature`, when it is a whole number.
    pub temperature: Option<i64>,
}

/// A period counts as daytime unless it says otherwise.
pub open spec fn daytime(p: PeriodFacts) -> bool {
    p.is_daytime != Some(false)
}

/// The low to show with the day at `i`: the temperature of the period right
/// after it, when that period exists and is a night.
pub open spec fn night_low(ps: Seq<PeriodFacts>, i: int) -> Option<i64> {
    if i + 1 < ps.len() && !daytime(ps[i + 1]) {
        ps[i + 1].temperature
    } else {
        None
    }
}

/// The indices of the daytime periods among the first `n`, in order.
pub open spec fn daytime_indices(ps: Seq<PeriodFacts>, n: int) -> Seq<int>
    decreases n,
{
    if n <= 0 {
        Seq::empty()
    } else if daytime(ps[n - 1]) {
        daytime_indices(ps, n - 1).push(n - 1)
    } else {
        daytime_indices(ps, n - 1)
    }
}

/// Days the forecast card shows at most.
pub const FORECAST_DAYS: usize = 7;

pub open spec fn min_days(n: int) -> int {
    if n < FORECAST_DAYS { n } else { FORECAST_DAYS as int }
}

proof fn lemma_daytime_indices(ps: Seq<PeriodFacts>, n: int)
    requires
        0 <= n <= ps.len(),
    ensures
        forall|k: int| 0 <= k < daytime_indices(ps, n).len() ==> 0 <= #[trigger] daytime_indices(ps, n)[k] < n
            && daytime(ps[daytime_indices(ps, n)[k]]),
        forall|k: int, l: int| 0 <= k < l < daytime_indices(ps, n).len() ==> #[trigger] daytime_indices(ps, n)[k]
            < #[trigger] daytime_indices(ps, n)[l],
    decreases n,
{
    if n > 0 {
        lemma_daytime_indices(ps, n - 1);
        let prev = daytime_indices(ps, n - 1);
        let d = daytime_indices(ps, n);
        if daytime(ps[n - 1]) {
            assert forall|k: int| 0 <= k < d.len() implies 0 <= #[trigger] d[k] < n && daytime(ps[d[k]]) by {
                if k < prev.len() {
                    assert(d[k] == prev[k]);
                }
            }
            assert forall|k: int, l: int| 0 <= k < l < d.len() implies #[trigger] d[k] < #[trigger] d[l] by {
                assert(d[k] == prev[k]);
                if l < prev.len() {
                    assert(d[l] == prev[l]);
                }
            }
        } else {
            assert(d == prev);
        }
    }
}

/// Which forecast periods become the card's days, and each day's low: the
/// daytime periods in order (a period without the flag counts as daytime), at
/// most seven of them, each paired with the temperature of the night right
/// after it.
pub fn forecast_days(periods: &Vec<PeriodFacts>) -> (days: Vec<(usize, Option<i64>)>)
    ensures
        days@.len() == min_days(daytime_indices(periods@, periods@.len() as int).len() as int),
        forall|k: int| 0 <= k < days@.len() ==> (#[trigger] days@[k]).0 == daytime_indices(
            periods@,
            periods@.len() as int,
        )[k] && days@[k].1 == night_low(periods@, days@[k].0 as int),
        forall|k: int| 0 <= k < days@.len() ==> (#[trigger] days@[k]).0 < periods@.len() && daytime(
            periods@[days@[k].0 as int],
        ),
        forall|k: int, l: int| 0 <= k < l < days@.len() ==> (#[trigger] days@[k]).0 < (#[trigger] days@[l]).0,
{
    let ghost ps = periods@;
    let mut days: Vec<(usize, Option<i64>)> = Vec::new();
    let mut i: usize = 0;
    while i < periods.len()
        invariant
            ps == periods@,
            i <= ps.len(),
            days@.len() == min_days(daytime_indices(ps, i as int).len() as int),
            forall|k: int| 0 <= k < days@.len() ==> (#[trigger] days@[k]).0 == daytime_indices(ps, i as int)[k]
                && days@[k].1 == night_low(ps, days@[k].0 as int),
        decreases ps.len() - i,
    {
        let p = periods[i];
        let is_day = match p.is_daytime {
            Some(false) => false,
            _ => true,
        };
        if is_day && days.len() < FORECAST_DAYS {
            let low = if i + 1 < periods.len() {
                let n = periods[i + 1];
                match n.is_daytime {
                    Some(false) => n.temperature,
                    _ => None,
                }
            } else {
                None
            };
            days.push((i, low));
        }
        i = i + 1;
    }
    proof {
        lemma_daytime_indices(ps, ps.len() as int);
    }
    days
}

} // verus!

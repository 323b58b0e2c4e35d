//! A small sliding-window rate limiter for the public endpoints worth
//! throttling: the one-time-code request (a spend guard, since every accepted
//! call sends an email) and the admin password login (where the point is to
//! make guessing expensive).
//!
//! The limiter is in-process: limits reset on restart and are not shared
//! between replicas. Each key keeps the instants of its accepted attempts;
//! an attempt is accepted while fewer than `max` of them lie inside the
//! window, and a refused attempt is not recorded, so hammering an endpoint
//! never pushes one's own unlock further away.

use std::time::Duration;
use std::time::Instant;
use vstd::prelude::*;

verus! {

/// Once more keys than this are held, keys whose every hit has expired are
/// dropped, so a long-running process does not keep one entry per address
/// it has ever seen.
pub const SWEEP_THRESHOLD: usize = 1024;

pub const NANOS_PER_SEC: u128 = 1_000_000_000;

/// The longest span a `Duration` can hold, in nanoseconds.
pub const MAX_WINDOW_NANOS: u128 = 18_446_744_073_709_551_615_999_999_999;

#[verifier::external_type_specification]
#[verifier::external_body]
pub struct ExInstant(Instant);

/// Calls `Instant::now`: a reading of the monotonic clock. Nothing is said of
/// the value; the limiter only measures time relative to it.
#[verifier::external_body]
fn clock_origin() -> Instant {
    Instant::now()
}

/// Calls `Instant::elapsed`: the time since `origin` was read. Nothing is
/// said of the value, which depends on the clock.
#[verifier::external_body]
fn elapsed_since(origin: &Instant) -> Duration {
    origin.elapsed()
}

/// Calls `Duration::as_nanos`. A `Duration` holds a `u64` count of seconds
/// and fewer than a billion nanoseconds, so its total is at most
/// `MAX_WINDOW_NANOS`; nothing else is said of the value.
#[verifier::external_body]
fn duration_nanos(d: &Duration) -> (n: u128)
    ensures
        n <= MAX_WINDOW_NANOS,
{
    d.as_nanos()
}

/// A hit recorded at `t` still counts at `now`.
pub open spec fn is_live(t: u128, now: int, window: int) -> bool {
    now - t < window
}

/// The hits of `times` that still count at `now`, in the order recorded.
pub open spec fn live_hits(times: Seq<u128>, now: int, window: int) -> Seq<u128>
    decreases times.len(),
{
    if times.len() == 0 {
        times
    } else {
        let rest = live_hits(times.drop_first(), now, window);
        if is_live(times[0], now, window) {
            seq![times[0]] + rest
        } else {
            rest
        }
    }
}

/// Whole seconds until the oldest live hit leaves the window, and never less
/// than one: what a refused caller is told to wait.
pub open spec fn retry_secs(live: Seq<u128>, now: int, window: int) -> int {
    let elapsed = if live.len() > 0 {
        now - live[0]
    } else {
        0
    };
    let remaining = if window > elapsed {
        window - elapsed
    } else {
        0
    };
    let secs = remaining / (NANOS_PER_SEC as int);
    if secs < 1 {
        1
    } else {
        secs
    }
}

/// Whole seconds, never less than one, until a hit made at `t0` leaves a
/// window of `window` nanoseconds, seen at `now`.
pub open spec fn wait_from(t0: int, now: int, window: int) -> int {
    let remaining = if window > now - t0 {
        window - (now - t0)
    } else {
        0
    };
    if remaining / 1_000_000_000 < 1 {
        1
    } else {
        remaining / 1_000_000_000
    }
}

/// Whether `i` indexes an earliest instant of `live`.
pub open spec fn is_earliest(live: Seq<u128>, i: int) -> bool {
    &&& 0 <= i < live.len()
    &&& forall|j: int| 0 <= j < live.len() ==> live[i] <= #[trigger] live[j]
}

/// `s` is the wait until the oldest of the `live` hits leaves the window
/// (the whole window when none is live).
pub open spec fn waits_for_oldest(s: int, live: Seq<u128>, now: int, window: int) -> bool {
    &&& live.len() == 0 ==> s == wait_from(now, now, window)
    &&& forall|i: int| #[trigger] is_earliest(live, i) ==> s == wait_from(live[i] as int, now, window)
}

/// The hits held for `key` (none when the key is absent).
pub open spec fn hits_of(m: Map<Seq<char>, Seq<u128>>, key: Seq<char>) -> Seq<u128> {
    if m.dom().contains(key) {
        m[key]
    } else {
        Seq::empty()
    }
}

/// `m` without the keys that have no live hit at `now`.
pub open spec fn swept(m: Map<Seq<char>, Seq<u128>>, now: int, window: int) -> Map<
    Seq<char>,
    Seq<u128>,
> {
    Map::new(|k: Seq<char>| m.dom().contains(k) && live_hits(m[k], now, window).len() > 0, |k: Seq<char>| m[k])
}

/// What a check of `key` at `now` leaves behind, given whether it was
/// accepted: expired hits of `key` are forgotten, an accepted attempt is
/// recorded, and past the sweep threshold idle keys are dropped first.
pub open spec fn after_check(
    m: Map<Seq<char>, Seq<u128>>,
    key: Seq<char>,
    now: int,
    window: int,
    accepted: bool,
) -> Map<Seq<char>, Seq<u128>> {
    let base = if m.len() > SWEEP_THRESHOLD {
        swept(m, now, window)
    } else {
        m
    };
    let live = live_hits(hits_of(m, key), now, window);
    base.insert(key, if accepted { live.push(now as u128) } else { live })
}

/// Every instant held in `m` is at or before `clock`.
pub open spec fn held_before(m: Map<Seq<char>, Seq<u128>>, clock: int) -> bool {
    forall|k: Seq<char>, i: int| m.dom().contains(k) && 0 <= i < m[k].len() ==> #[trigger] m[k][i] <= clock
}

/// The longest wait a refusal can name: the window in whole seconds, and
/// never less than one.
pub open spec fn retry_ceiling(window: int) -> int {
    if window / (NANOS_PER_SEC as int) < 1 {
        1
    } else {
        window / (NANOS_PER_SEC as int)
    }
}

pub open spec fn sorted_upto(times: Seq<u128>, bound: int) -> bool {
    &&& forall|i: int, j: int| 0 <= i <= j < times.len() ==> times[i] <= times[j]
    &&& forall|i: int| 0 <= i < times.len() ==> times[i] <= bound
}

/// Allows at most `max` attempts per key inside any window of `window`.
pub struct RateLimiter {
    keys: Vec<String>,
    times: Vec<Vec<u128>>,
    max: usize,
    window_ns: u128,
    origin: Instant,
    latest: u128,
}

impl RateLimiter {
    spec fn key_seq(&self) -> Seq<Seq<char>> {
        Seq::new(self.keys@.len(), |i: int| self.keys@[i]@)
    }

    /// Attempts allowed per window.
    pub closed spec fn max_hits(&self) -> nat {
        self.max as nat
    }

    /// Window length in nanoseconds.
    pub closed spec fn window(&self) -> nat {
        self.window_ns as nat
    }

    /// The latest instant the limiter has seen, in nanoseconds since it was made.
    pub closed spec fn clock(&self) -> nat {
        self.latest as nat
    }

    pub closed spec fn wf(&self) -> bool {
        &&& self.keys@.len() == self.times@.len()
        &&& self.key_seq().no_duplicates()
        &&& self.window_ns <= MAX_WINDOW_NANOS
        &&& forall|i: int|
            0 <= i < self.times@.len() ==> sorted_upto(#[trigger] self.times@[i]@, self.latest as int)
    }
}

impl View for RateLimiter {
    type V = Map<Seq<char>, Seq<u128>>;

    /// Each key seen, with the instants of its recorded hits.
    closed spec fn view(&self) -> Map<Seq<char>, Seq<u128>> {
        Map::new(
            |k: Seq<char>| self.key_seq().contains(k),
            |k: Seq<char>| self.times@[self.key_seq().index_of(k)]@,
        )
    }
}

proof fn lemma_view_at(r: &RateLimiter, i: int)
    requires
        r.wf(),
        0 <= i < r.keys@.len(),
    ensures
        r@.dom().contains(r.keys@[i]@),
        r@[r.keys@[i]@] == r.times@[i]@,
{
    let ks = r.key_seq();
    assert(ks[i] == r.keys@[i]@);
    assert(ks.contains(r.keys@[i]@));
    let j = ks.index_of(r.keys@[i]@);
    assert(ks[j] == ks[i]);
}

proof fn lemma_view_len(r: &RateLimiter)
    requires
        r.wf(),
    ensures
        r@.dom().finite(),
        r@.len() == r.keys@.len(),
{
    let ks = r.key_seq();
    assert(r@.dom() =~= ks.to_set());
    ks.unique_seq_to_set();
}

proof fn lemma_held_before_clock(r: &RateLimiter)
    requires
        r.wf(),
    ensures
        held_before(r@, r.clock() as int),
{
    assert forall|k: Seq<char>, i: int| r@.dom().contains(k) && 0 <= i < r@[k].len() implies #[trigger] r@[k][i]
        <= r.clock() as int by {
        let a = choose|a: int| 0 <= a < r.key_seq().len() && r.key_seq()[a] == k;
        assert(r.keys@[a]@ == k);
        lemma_view_at(r, a);
        assert(sorted_upto(r.times@[a]@, r.latest as int));
    }
}

proof fn lemma_live_all(times: Seq<u128>, now: int, window: int)
    requires
        forall|i: int, j: int| 0 <= i <= j < times.len() ==> times[i] <= times[j],
        times.len() > 0 ==> is_live(times[0], now, window),
    ensures
        live_hits(times, now, window) == times,
    decreases times.len(),
{
    if times.len() > 0 {
        let rest = times.drop_first();
        if rest.len() > 0 {
            assert(times[0] <= times[1]);
        }
        lemma_live_all(rest, now, window);
        assert(seq![times[0]] + rest =~= times);
    }
}

proof fn lemma_live_suffix(times: Seq<u128>, j: int, now: int, window: int)
    requires
        0 <= j <= times.len(),
        forall|i: int| 0 <= i < j ==> !is_live(#[trigger] times[i], now, window),
    ensures
        live_hits(times, now, window) == live_hits(times.subrange(j, times.len() as int), now, window),
    decreases j,
{
    if j > 0 {
        let rest = times.drop_first();
        assert forall|i: int| 0 <= i < j - 1 implies !is_live(#[trigger] rest[i], now, window) by {
            assert(rest[i] == times[i + 1]);
        }
        lemma_live_suffix(rest, j - 1, now, window);
        assert(rest.subrange(j - 1, rest.len() as int) =~= times.subrange(j, times.len() as int));
    } else {
        assert(times.subrange(0, times.len() as int) =~= times);
    }
}

/// Nothing that has stopped counting counts again later.
pub proof fn lemma_live_empty_stays_empty(times: Seq<u128>, now: int, later: int, window: int)
    requires
        live_hits(times, now, window).len() == 0,
        later >= now,
    ensures
        live_hits(times, later, window).len() == 0,
    decreases times.len(),
{
    if times.len() > 0 {
        lemma_live_empty_stays_empty(times.drop_first(), now, later, window);
    }
}

proof fn lemma_live_idempotent(times: Seq<u128>, now: int, later: int, window: int)
    requires
        later >= now,
    ensures
        live_hits(live_hits(times, now, window), later, window) == live_hits(times, later, window),
    decreases times.len(),
{
    if times.len() > 0 {
        lemma_live_idempotent(times.drop_first(), now, later, window);
        let rest = live_hits(times.drop_first(), now, window);
        if is_live(times[0], now, window) {
            let s = seq![times[0]] + rest;
            assert(s.drop_first() =~= rest);
        } else {
            if is_live(times[0], later, window) {
                assert(false);
            }
        }
    }
}

/// With hits in time order, some hit still counts exactly when the latest does.
proof fn lemma_live_nonempty_iff_last(times: Seq<u128>, now: int, window: int)
    requires
        forall|i: int, j: int| 0 <= i <= j < times.len() ==> times[i] <= times[j],
    ensures
        (live_hits(times, now, window).len() > 0) == (times.len() > 0 && is_live(times.last(), now, window)),
    decreases times.len(),
{
    if times.len() > 0 {
        let rest = times.drop_first();
        lemma_live_nonempty_iff_last(rest, now, window);
        if rest.len() > 0 {
            assert(rest.last() == times.last());
            assert(times[0] <= times.last());
        }
    }
}

/// Whether any hit in `times` still counts at `now`.
fn has_live(times: &Vec<u128>, now: u128, window: u128, Ghost(bound): Ghost<int>) -> (b: bool)
    requires
        sorted_upto(times@, bound),
        now >= bound,
    ensures
        b == (live_hits(times@, now as int, window as int).len() > 0),
{
    proof {
        lemma_live_nonempty_iff_last(times@, now as int, window as int);
    }
    let n = times.len();
    n > 0 && now - times[n - 1] < window
}

impl RateLimiter {
    /// A limiter allowing `max` attempts per key in any span of
    /// `window_secs` seconds.
    pub fn new(max: usize, window_secs: u64) -> (r: RateLimiter)
        ensures
            r.wf(),
            r.max_hits() == max,
            r.window() == window_secs * NANOS_PER_SEC,
            r@ == Map::<Seq<char>, Seq<u128>>::empty(),
            r.clock() == 0,
            held_before(r@, r.clock() as int),
    {
        assert(window_secs * NANOS_PER_SEC <= MAX_WINDOW_NANOS) by (nonlinear_arith)
            requires
                window_secs <= u64::MAX,
                NANOS_PER_SEC == 1_000_000_000,
                MAX_WINDOW_NANOS == 18_446_744_073_709_551_615_999_999_999u128,
        ;
        RateLimiter::with_window_nanos(max, window_secs as u128 * NANOS_PER_SEC)
    }

    /// Like [`RateLimiter::new`], with the window given in nanoseconds.
    pub fn with_window_nanos(max: usize, window_ns: u128) -> (r: RateLimiter)
        requires
            window_ns <= MAX_WINDOW_NANOS,
        ensures
            r.wf(),
            r.max_hits() == max,
            r.window() == window_ns,
            r@ == Map::<Seq<char>, Seq<u128>>::empty(),
            r.clock() == 0,
            held_before(r@, r.clock() as int),
    {
        let r = RateLimiter {
            keys: Vec::new(),
            times: Vec::new(),
            max,
            window_ns,
            origin: clock_origin(),
            latest: 0,
        };
        assert(r@ =~= Map::<Seq<char>, Seq<u128>>::empty());
        r
    }

    /// Attempts allowed per window.
    pub fn max(&self) -> (m: usize)
        ensures
            m == self.max_hits(),
    {
        self.max
    }

    /// The window in nanoseconds.
    pub fn window_nanos(&self) -> (w: u128)
        ensures
            w == self.window(),
    {
        self.window_ns
    }

    fn find(&self, key: &String) -> (found: Option<usize>)
        requires
            self.wf(),
        ensures
            match found {
                Some(i) => i < self.keys@.len() && self.keys@[i as int]@ == key@,
                None => !self@.dom().contains(key@),
            },
    {
        let mut i: usize = 0;
        while i < self.keys.len()
            invariant
                i <= self.keys@.len(),
                forall|j: int| 0 <= j < i ==> self.keys@[j]@ != key@,
            decreases self.keys@.len() - i,
        {
            if self.keys[i] == *key {
                return Some(i);
            }
            i = i + 1;
        }
        proof {
            if self@.dom().contains(key@) {
                let ks = self.key_seq();
                let j = choose|j: int| 0 <= j < ks.len() && ks[j] == key@;
                assert(self.keys@[j]@ == key@);
            }
        }
        None
    }

    /// Drops every key none of whose hits counts at `now`.
    fn sweep(&mut self, now: u128)
        requires
            old(self).wf(),
            now >= old(self).latest,
        ensures
            final(self).wf(),
            final(self)@ == swept(old(self)@, now as int, old(self).window() as int),
            final(self).max == old(self).max,
            final(self).window_ns == old(self).window_ns,
            final(self).latest == old(self).latest,
    {
        let ghost old_self = *self;
        let ghost w = self.window_ns as int;
        let mut keys: Vec<String> = Vec::new();
        let mut times: Vec<Vec<u128>> = Vec::new();
        let ghost mut src: Seq<int> = Seq::empty();
        let mut i: usize = 0;
        let n = self.keys.len();
        while i < n
            invariant
                old_self.wf(),
                old_self.keys@.len() == n,
                self.keys@ == old_self.keys@,
                self.times@ == old_self.times@,
                self.window_ns == old_self.window_ns,
                self.latest == old_self.latest,
                w == self.window_ns as int,
                now >= self.latest,
                i <= n,
                keys@.len() == times@.len(),
                src.len() == keys@.len(),
                forall|a: int, b: int| 0 <= a < b < src.len() ==> src[a] < src[b],
                forall|a: int|
                    0 <= a < src.len() ==> 0 <= #[trigger] src[a] < i && keys@[a]@
                        == old_self.keys@[src[a]]@ && times@[a]@ == old_self.times@[src[a]]@
                        && live_hits(old_self.times@[src[a]]@, now as int, w).len() > 0,
                forall|b: int|
                    0 <= b < i && live_hits(#[trigger] old_self.times@[b]@, now as int, w).len() > 0
                        ==> exists|a: int| 0 <= a < src.len() && src[a] == b,
            decreases n - i,
        {
            proof {
                assert(sorted_upto(old_self.times@[i as int]@, self.latest as int));
            }
            let ghost old_src = src;
            let alive = has_live(&self.times[i], now, self.window_ns, Ghost(self.latest as int));
            if alive {
                keys.push(self.keys[i].clone());
                times.push(self.times[i].clone());
                proof {
                    let a = keys@.len() - 1;
                    assert(keys@[a]@ == old_self.keys@[i as int]@);
                    assert(times@[a]@ == old_self.times@[i as int]@);
                    src = src.push(i as int);
                    assert(src[a] == i);
                }
            }
            proof {
                assert forall|b: int|
                    0 <= b <= i && live_hits(#[trigger] old_self.times@[b]@, now as int, w).len() > 0
                        implies exists|a: int| 0 <= a < src.len() && src[a] == b by {
                    if b == i {
                        assert(src[src.len() - 1] == b);
                    } else {
                        let a = choose|a: int| 0 <= a < old_src.len() && old_src[a] == b;
                        assert(src[a] == b);
                    }
                }
            }
            i = i + 1;
        }
        self.keys = keys;
        self.times = times;
        proof {
            let m = swept(old_self@, now as int, w);
            assert forall|a: int, b: int|
                0 <= a < self.keys@.len() && 0 <= b < self.keys@.len() && a != b implies self.key_seq()[a]
                != self.key_seq()[b] by {
                assert(src[a] != src[b]);
                assert(old_self.key_seq()[src[a]] != old_self.key_seq()[src[b]]);
            }
            assert forall|a: int| 0 <= a < self.times@.len() implies sorted_upto(
                #[trigger] self.times@[a]@,
                self.latest as int,
            ) by {
                assert(sorted_upto(old_self.times@[src[a]]@, old_self.latest as int));
            }
            assert forall|k: Seq<char>| #[trigger] self@.dom().contains(k) == m.dom().contains(k) by {
                if self@.dom().contains(k) {
                    let a = choose|a: int| 0 <= a < self.key_seq().len() && self.key_seq()[a] == k;
                    assert(self.keys@[a]@ == k);
                    lemma_view_at(&old_self, src[a]);
                }
                if m.dom().contains(k) {
                    let b = choose|b: int| 0 <= b < old_self.key_seq().len() && old_self.key_seq()[b] == k;
                    assert(old_self.keys@[b]@ == k);
                    lemma_view_at(&old_self, b);
                    assert(live_hits(old_self.times@[b]@, now as int, w).len() > 0);
                    let a = choose|a: int| 0 <= a < src.len() && src[a] == b;
                    assert(self.key_seq()[a] == k);
                }
            }
            assert forall|k: Seq<char>| #[trigger] self@.dom().contains(k) implies self@[k] == m[k] by {
                let a = choose|a: int| 0 <= a < self.key_seq().len() && self.key_seq()[a] == k;
                assert(self.keys@[a]@ == k);
                lemma_view_at(self, a);
                lemma_view_at(&old_self, src[a]);
            }
            assert(self@ =~= m);
        }
    }

    /// The limiter's decision for an attempt on `key` at instant `now`
    /// (nanoseconds since the limiter was made). `Err` carries the seconds
    /// until the oldest counted hit leaves the window.
    pub fn check_at(&mut self, key: &str, now: u128) -> (r: Result<(), u64>)
        requires
            old(self).wf(),
            now >= old(self).clock(),
        ensures
            final(self).wf(),
            final(self).max_hits() == old(self).max_hits(),
            final(self).window() == old(self).window(),
            final(self).clock() == now,
            r is Ok <==> live_hits(hits_of(old(self)@, key@), now as int, old(self).window() as int).len()
                < old(self).max_hits(),
            final(self)@ == after_check(old(self)@, key@, now as int, old(self).window() as int, r is Ok),
            r matches Err(s) ==> s == retry_secs(
                live_hits(hits_of(old(self)@, key@), now as int, old(self).window() as int),
                now as int,
                old(self).window() as int,
            ),
            r matches Err(s) ==> 1 <= s <= retry_ceiling(old(self).window() as int),
            r matches Err(s) ==> waits_for_oldest(
                s as int,
                live_hits(hits_of(old(self)@, key@), now as int, old(self).window() as int),
                now as int,
                old(self).window() as int,
            ),
            held_before(final(self)@, final(self).clock() as int),
    {
        let ghost before = *self;
        proof {
            lemma_view_len(self);
        }
        if self.keys.len() > SWEEP_THRESHOLD {
            self.sweep(now);
        }
        let ghost base = *self;
        let key_string = String::from_str(key);
        let found = self.find(&key_string);
        let mut old_times: Vec<u128> = Vec::new();
        let ghost live_spec = live_hits(hits_of(before@, key@), now as int, self.window_ns as int);
        match found {
            Some(i) => {
                proof {
                    lemma_view_at(self, i as int);
                }
                self.times.set_and_swap(i, &mut old_times);
            },
            None => {},
        }
        proof {
            if base@.dom().contains(key@) {
                // the key survived any sweep, so its hits are those it had
                assert(before@.dom().contains(key@));
            } else if before@.dom().contains(key@) {
                assert(live_hits(before@[key@], now as int, self.window_ns as int).len() == 0);
            }
            assert(live_hits(old_times@, now as int, self.window_ns as int) == live_spec);
        }
        // Forget the hits that no longer count.
        let mut j: usize = 0;
        while j < old_times.len() && now - old_times[j] >= self.window_ns
            invariant
                j <= old_times@.len(),
                now >= self.latest,
                sorted_upto(old_times@, self.latest as int),
                forall|k: int| 0 <= k < j ==> !is_live(#[trigger] old_times@[k], now as int, self.window_ns as int),
            decreases old_times@.len() - j,
        {
            j = j + 1;
        }
        let ghost all_times = old_times@;
        let mut live = old_times.split_off(j);
        proof {
            lemma_live_suffix(all_times, j as int, now as int, self.window_ns as int);
            if live@.len() > 0 {
                assert(live@[0] == all_times[j as int]);
            }
            lemma_live_all(live@, now as int, self.window_ns as int);
            assert(live@ == live_spec);
            assert forall|i: int| 0 <= i < live@.len() implies #[trigger] live@[i] <= now by {
                assert(live@[i] == all_times[j + i]);
            }
            law_retry_is_bounded(live@, now as int, self.window_ns as int);
            law_wait_runs_from_the_oldest_hit(live@, now as int, self.window_ns as int);
        }
        let accepted = live.len() < self.max;
        let mut result: Result<(), u64> = Ok(());
        if !accepted {
            let elapsed: u128 = if live.len() > 0 {
                now - live[0]
            } else {
                0
            };
            let remaining: u128 = if self.window_ns > elapsed {
                self.window_ns - elapsed
            } else {
                0
            };
            let secs: u128 = remaining / NANOS_PER_SEC;
            proof {
                assert(remaining <= MAX_WINDOW_NANOS);
                assert(secs <= u64::MAX) by (nonlinear_arith)
                    requires
                        secs == remaining / 1_000_000_000,
                        remaining <= 18_446_744_073_709_551_615_999_999_999u128,
                ;
            }
            let secs64 = secs as u64;
            result = Err(if secs64 < 1 {
                1
            } else {
                secs64
            });
        } else {
            live.push(now);
        }
        self.latest = now;
        proof {
            assert(sorted_upto(live@, now as int));
        }
        match found {
            Some(i) => {
                self.times.set(i, live);
            },
            None => {
                self.keys.push(key_string);
                self.times.push(live);
            },
        }
        proof {
            let m = after_check(before@, key@, now as int, self.window_ns as int, accepted);
            let b = if before@.len() > SWEEP_THRESHOLD {
                swept(before@, now as int, self.window_ns as int)
            } else {
                before@
            };
            assert(base@ == b);
            assert forall|a: int| 0 <= a < self.times@.len() implies sorted_upto(
                #[trigger] self.times@[a]@,
                self.latest as int,
            ) by {
                if a < base.times@.len() && (found is None || a != found->0) {
                    assert(self.times@[a] == base.times@[a]);
                    assert(sorted_upto(base.times@[a]@, base.latest as int));
                }
            }
            match found {
                Some(i) => {
                    assert(self.keys@ == base.keys@);
                    assert(self.key_seq() =~= base.key_seq());
                    assert forall|k: Seq<char>| #[trigger] self@.dom().contains(k) == m.dom().contains(k) by {
                    }
                    assert forall|k: Seq<char>| #[trigger] self@.dom().contains(k) implies self@[k] == m[k] by {
                        let a = choose|a: int| 0 <= a < self.key_seq().len() && self.key_seq()[a] == k;
                        assert(self.keys@[a]@ == k);
                        lemma_view_at(self, a);
                        lemma_view_at(&base, a);
                        if a != i {
                            assert(self.keys@[a]@ != key@) by {
                                assert(base.key_seq()[a] != base.key_seq()[i as int]);
                            }
                        }
                    }
                },
                None => {
                    assert(self.key_seq() =~= base.key_seq().push(key@));
                    assert forall|k: Seq<char>| #[trigger] self@.dom().contains(k) == m.dom().contains(k) by {
                        if k == key@ {
                            assert(self.key_seq()[self.keys@.len() - 1] == k);
                        } else if m.dom().contains(k) {
                            let a = choose|a: int| 0 <= a < base.key_seq().len() && base.key_seq()[a] == k;
                            assert(self.key_seq()[a] == k);
                        }
                    }
                    assert forall|k: Seq<char>| #[trigger] self@.dom().contains(k) implies self@[k] == m[k] by {
                        let a = choose|a: int| 0 <= a < self.key_seq().len() && self.key_seq()[a] == k;
                        assert(self.keys@[a]@ == k);
                        lemma_view_at(self, a);
                        if a < base.keys@.len() {
                            lemma_view_at(&base, a);
                        }
                    }
                },
            }
            assert(self@ =~= m);
            lemma_held_before_clock(self);
        }
        result
    }

    /// Reads the clock, never letting it run backwards.
    fn clock_now(&self) -> (now: u128)
        ensures
            now >= self.latest,
    {
        let d = elapsed_since(&self.origin);
        let t = duration_nanos(&d);
        if t < self.latest {
            self.latest
        } else {
            t
        }
    }

    /// Records an attempt for `key` now. `Err(seconds)` when the caller is
    /// over the limit, where `seconds` is how long until the oldest counted
    /// hit leaves the window; a refused attempt is not recorded.
    pub fn check(&mut self, key: &str) -> (r: Result<(), u64>)
        requires
            old(self).wf(),
        ensures
            final(self).wf(),
            final(self).max_hits() == old(self).max_hits(),
            final(self).window() == old(self).window(),
            final(self).clock() >= old(self).clock(),
            r is Ok <==> live_hits(
                hits_of(old(self)@, key@),
                final(self).clock() as int,
                old(self).window() as int,
            ).len() < old(self).max_hits(),
            final(self)@ == after_check(
                old(self)@,
                key@,
                final(self).clock() as int,
                old(self).window() as int,
                r is Ok,
            ),
            r matches Err(s) ==> s == retry_secs(
                live_hits(hits_of(old(self)@, key@), final(self).clock() as int, old(self).window() as int),
                final(self).clock() as int,
                old(self).window() as int,
            ),
            r matches Err(s) ==> 1 <= s <= retry_ceiling(old(self).window() as int),
            r matches Err(s) ==> waits_for_oldest(
                s as int,
                live_hits(hits_of(old(self)@, key@), final(self).clock() as int, old(self).window() as int),
                final(self).clock() as int,
                old(self).window() as int,
            ),
            held_before(final(self)@, final(self).clock() as int),
    {
        let now = self.clock_now();
        self.check_at(key, now)
    }
}

/// One key's check never changes what any other key is allowed, now or later.
pub proof fn law_keys_are_independent(
    m: Map<Seq<char>, Seq<u128>>,
    key: Seq<char>,
    other: Seq<char>,
    now: int,
    window: int,
    accepted: bool,
    later: int,
)
    requires
        other != key,
        later >= now,
    ensures
        live_hits(hits_of(after_check(m, key, now, window, accepted), other), later, window)
            == live_hits(hits_of(m, other), later, window),
{
    let after = after_check(m, key, now, window, accepted);
    if m.dom().contains(other) && !after.dom().contains(other) {
        lemma_live_empty_stays_empty(m[other], now, later, window);
        assert(live_hits(Seq::<u128>::empty(), later, window).len() == 0);
    }
}

/// A refused attempt is not recorded: from the refusal on, the key's counted
/// hits are exactly those it had before, so hammering never moves the unlock.
pub proof fn law_refusal_does_not_extend_lockout(
    m: Map<Seq<char>, Seq<u128>>,
    key: Seq<char>,
    now: int,
    window: int,
    later: int,
)
    requires
        later >= now,
    ensures
        live_hits(hits_of(after_check(m, key, now, window, false), key), later, window)
            == live_hits(hits_of(m, key), later, window),
{
    lemma_live_idempotent(hits_of(m, key), now, later, window);
}

/// An accepted attempt counts against its key: one more live hit than before.
pub proof fn law_accepted_attempt_counts(
    m: Map<Seq<char>, Seq<u128>>,
    key: Seq<char>,
    now: u128,
    window: int,
)
    requires
        window > 0,
    ensures
        live_hits(hits_of(after_check(m, key, now as int, window, true), key), now as int, window).len()
            == live_hits(hits_of(m, key), now as int, window).len() + 1,
{
    let live = live_hits(hits_of(m, key), now as int, window);
    lemma_live_idempotent(hits_of(m, key), now as int, now as int, window);
    lemma_live_push(live, now, now as int, window);
}

proof fn lemma_live_push(times: Seq<u128>, t: u128, now: int, window: int)
    ensures
        live_hits(times.push(t), now, window) == if is_live(t, now, window) {
            live_hits(times, now, window).push(t)
        } else {
            live_hits(times, now, window)
        },
    decreases times.len(),
{
    if times.len() == 0 {
        assert(times.push(t).drop_first() =~= times);
        assert(seq![t] + Seq::<u128>::empty() =~= Seq::<u128>::empty().push(t));
    } else {
        assert(times.push(t).drop_first() =~= times.drop_first().push(t));
        lemma_live_push(times.drop_first(), t, now, window);
        let rest = live_hits(times.drop_first(), now, window);
        assert(seq![times[0]] + rest.push(t) =~= (seq![times[0]] + rest).push(t));
    }
}

/// Once every hit of a key is a full window old, the key is back to a clean
/// slate: nothing counts against it.
pub proof fn law_window_expiry(times: Seq<u128>, now: int, window: int)
    requires
        forall|i: int| 0 <= i < times.len() ==> now - #[trigger] times[i] >= window,
    ensures
        live_hits(times, now, window).len() == 0,
    decreases times.len(),
{
    if times.len() > 0 {
        let rest = times.drop_first();
        assert forall|i: int| 0 <= i < rest.len() implies now - #[trigger] rest[i] >= window by {
            assert(rest[i] == times[i + 1]);
        }
        law_window_expiry(rest, now, window);
    }
}

/// A recorded hit counts at `now` exactly while it is younger than the
/// window (`now - t < window`); counting keeps the hits' order and never
/// adds one.
pub proof fn law_a_hit_counts_while_younger_than_the_window(times: Seq<u128>, now: int, window: int)
    ensures
        forall|x: u128| #[trigger] live_hits(times, now, window).contains(x) <==> (times.contains(x) && now - x
            < window),
        live_hits(times, now, window).len() <= times.len(),
        times.len() > 0 && now - times[0] < window ==> live_hits(times, now, window)[0] == times[0],
    decreases times.len(),
{
    if times.len() > 0 {
        let rest = times.drop_first();
        law_a_hit_counts_while_younger_than_the_window(rest, now, window);
        let lr = live_hits(rest, now, window);
        assert forall|x: u128| #[trigger] live_hits(times, now, window).contains(x) <==> (times.contains(x)
            && now - x < window) by {
            if times.contains(x) {
                let k = choose|k: int| 0 <= k < times.len() && times[k] == x;
                if k > 0 {
                    assert(rest[k - 1] == x);
                }
            }
            if rest.contains(x) {
                let k = choose|k: int| 0 <= k < rest.len() && rest[k] == x;
                assert(times[k + 1] == x);
            }
            if now - times[0] < window {
                let l = seq![times[0]] + lr;
                assert(l[0] == times[0]);
                if lr.contains(x) {
                    let k = choose|k: int| 0 <= k < lr.len() && lr[k] == x;
                    assert(l[k + 1] == x);
                }
                if l.contains(x) {
                    let k = choose|k: int| 0 <= k < l.len() && l[k] == x;
                    if k > 0 {
                        assert(lr[k - 1] == x);
                    }
                }
            }
        }
    }
}

/// A refused caller is told to wait until the EARLIEST of its live hits
/// leaves the window, counted in whole seconds and never less than one;
/// with no live hit, the whole window. Holds of any live hits kept in time
/// order, as the limiter keeps them.
pub proof fn law_wait_runs_from_the_oldest_hit(live: Seq<u128>, now: int, window: int)
    requires
        forall|a: int, b: int| 0 <= a <= b < live.len() ==> live[a] <= live[b],
    ensures
        waits_for_oldest(retry_secs(live, now, window), live, now, window),
{
    assert forall|i: int| #[trigger] is_earliest(live, i) implies retry_secs(live, now, window) == wait_from(
        live[i] as int,
        now,
        window,
    ) by {
        assert(live[i] <= live[0]);
        assert(live[0] <= live[i]);
    }
}

/// A refused caller is told to wait at least a second and never longer than
/// the window, rounded down to whole seconds.
pub proof fn law_retry_is_bounded(live: Seq<u128>, now: int, window: int)
    requires
        window >= 0,
        forall|i: int| 0 <= i < live.len() ==> #[trigger] live[i] <= now,
    ensures
        1 <= retry_secs(live, now, window),
        retry_secs(live, now, window) <= if window / (NANOS_PER_SEC as int) < 1 {
            1
        } else {
            window / (NANOS_PER_SEC as int)
        },
{
    let elapsed = if live.len() > 0 {
        now - live[0]
    } else {
        0
    };
    let remaining = if window > elapsed {
        window - elapsed
    } else {
        0
    };
    assert(remaining <= window);
    assert(remaining / 1_000_000_000 <= window / 1_000_000_000) by (nonlinear_arith)
        requires
            0 <= remaining <= window,
    ;
}

/// The four throttles in front of the unauthenticated sign-in endpoints.
pub struct RateLimits {
    /// Per address: stops one inbox being flooded with codes.
    pub otp_per_email: RateLimiter,
    /// Per client address: caps spend, since cycling email addresses walks
    /// straight past the per-email limit.
    pub otp_per_ip: RateLimiter,
    /// Password attempts per client address.
    pub password_per_ip: RateLimiter,
    /// Password attempts per account, so a rotating pool of addresses cannot
    /// grind one account down.
    pub password_per_email: RateLimiter,
}

impl RateLimits {
    pub open spec fn wf(&self) -> bool {
        &&& self.otp_per_email.wf()
        &&& self.otp_per_ip.wf()
        &&& self.password_per_ip.wf()
        &&& self.password_per_email.wf()
    }
}

impl Default for RateLimits {
    /// One code per address per minute; five codes per network per ten
    /// minutes; five password attempts per network and per account per
    /// fifteen minutes — the password budget is never looser than the OTP one.
    fn default() -> (l: RateLimits)
        ensures
            l.wf(),
            l.otp_per_email.max_hits() == 1,
            l.otp_per_email.window() == 60 * NANOS_PER_SEC,
            l.otp_per_ip.max_hits() == 5,
            l.otp_per_ip.window() == 600 * NANOS_PER_SEC,
            l.password_per_ip.max_hits() == 5,
            l.password_per_ip.window() == 900 * NANOS_PER_SEC,
            l.password_per_email.max_hits() == 5,
            l.password_per_email.window() == 900 * NANOS_PER_SEC,
            l.otp_per_email@.dom().is_empty(),
            l.otp_per_ip@.dom().is_empty(),
            l.password_per_ip@.dom().is_empty(),
            l.password_per_email@.dom().is_empty(),
            l.password_per_ip.max_hits() <= l.otp_per_ip.max_hits(),
            l.password_per_ip.window() >= l.otp_per_ip.window(),
            l.password_per_email.max_hits() <= l.otp_per_ip.max_hits(),
            l.password_per_email.window() >= l.otp_per_ip.window(),
    {
        RateLimits {
            otp_per_email: RateLimiter::with_window_nanos(1, 60 * NANOS_PER_SEC),
            otp_per_ip: RateLimiter::with_window_nanos(5, 600 * NANOS_PER_SEC),
            password_per_ip: RateLimiter::with_window_nanos(5, 900 * NANOS_PER_SEC),
            password_per_email: RateLimiter::with_window_nanos(5, 900 * NANOS_PER_SEC),
        }
    }
}

/// The text before the first comma (all of it when there is none).
pub open spec fn before_comma(s: Seq<char>) -> Seq<char>
    decreases s.len(),
{
    if s.len() == 0 || s[0] == ',' {
        Seq::empty()
    } else {
        seq![s[0]] + before_comma(s.drop_first())
    }
}

proof fn lemma_before_comma_at(s: Seq<char>, j: int)
    requires
        0 <= j <= s.len(),
        forall|k: int| 0 <= k < j ==> s[k] != ',',
        j == s.len() || s[j] == ',',
    ensures
        before_comma(s) == s.subrange(0, j),
    decreases j,
{
    if j > 0 {
        lemma_before_comma_at(s.drop_first(), j - 1);
        assert(seq![s[0]] + s.drop_first().subrange(0, j - 1) =~= s.subrange(0, j));
    } else {
        assert(s.subrange(0, 0).len() == 0);
    }
}

/// The client address the throttles key on: the leftmost entry of
/// `X-Forwarded-For` when it holds something, else the socket's address,
/// else "unknown".
pub open spec fn client_ip_spec(forwarded: Option<Seq<char>>, peer_ip: Option<Seq<char>>) -> Seq<char> {
    let first = match forwarded {
        Some(f) => crate::text::trim_spec(before_comma(f)),
        None => Seq::empty(),
    };
    if first.len() > 0 {
        first
    } else {
        match peer_ip {
            Some(p) => p,
            None => "unknown"@,
        }
    }
}

/// Best-effort client address. `forwarded` is the `X-Forwarded-For` header
/// when present and readable as text; `peer_ip` the socket's address.
pub fn client_ip(forwarded: Option<&str>, peer_ip: Option<&str>) -> (s: String)
    ensures
        s@ == client_ip_spec(
            match forwarded {
                Some(f) => Some(f@),
                None => None,
            },
            match peer_ip {
                Some(p) => Some(p@),
                None => None,
            },
        ),
{
    match forwarded {
        Some(f) => {
            let v = crate::text::chars_of(f);
            let mut j: usize = 0;
            while j < v.len() && v[j] != ','
                invariant
                    v@ == f@,
                    j <= v@.len(),
                    forall|k: int| 0 <= k < j ==> f@[k] != ',',
                decreases v@.len() - j,
            {
                j = j + 1;
            }
            proof {
                lemma_before_comma_at(f@, j as int);
            }
            let first = crate::text::trim(f.substring_char(0, j));
            if first.unicode_len() > 0 {
                return String::from_str(first);
            }
        },
        None => {},
    }
    match peer_ip {
        Some(p) => String::from_str(p),
        None => String::from_str("unknown"),
    }
}

} // verus!

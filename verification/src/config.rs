//! Process configuration and the browser origins allowed to call the API.

use crate::text::{is_ws, str_eq, trim, trim_spec};
use vstd::prelude::*;

verus! {

/// Process configuration, read once at startup.
#[derive(Debug, Clone)]
pub struct Config {
    pub database_url: String,
    pub jwt_secret: String,
    pub resend_api_key: Option<String>,
    pub email_from: String,
    pub frontend_url: String,
    /// A previous public origin of the frontend, still allowed through CORS.
    pub legacy_frontend_url: Option<String>,
    /// Public origin of this API, used in the owner's approve/deny links.
    pub api_base_url: String,
    /// Fallback recipient of the approve/deny email.
    pub owner_email: Option<String>,
    /// Admin notification address.
    pub admin_email: Option<String>,
    pub noaa_station_id: String,
    pub capacity_adults: i64,
    pub bind_addr: String,
    /// Where uploaded images are written and served from.
    pub upload_dir: String,
}

/// The raw values of the environment variables the service reads, as found
/// (absent when unset).
#[derive(Debug, Clone)]
pub struct EnvVars {
    pub database_url: Option<String>,
    pub jwt_secret: Option<String>,
    pub resend_api_key: Option<String>,
    pub email_from_address: Option<String>,
    pub frontend_url: Option<String>,
    pub legacy_frontend_url: Option<String>,
    pub api_base_url: Option<String>,
    pub owner_email: Option<String>,
    pub admin_email: Option<String>,
    pub noaa_station_id: Option<String>,
    pub capacity_adults: Option<String>,
    pub bind_addr: Option<String>,
    pub port: Option<String>,
    pub upload_dir: Option<String>,
}

/// A variable counts as set only when it holds more than whitespace; its
/// value is kept as given.
pub open spec fn set_value(v: Option<String>) -> Option<Seq<char>> {
    match v {
        Some(s) => if trim_spec(s@).len() > 0 {
            Some(s@)
        } else {
            None
        },
        None => None,
    }
}

pub open spec fn or_default(v: Option<String>, d: Seq<char>) -> Seq<char> {
    match set_value(v) {
        Some(s) => s,
        None => d,
    }
}

fn opt(v: &Option<String>) -> (r: Option<String>)
    ensures
        crate::text::opt_view(r) == set_value(*v),
{
    match v {
        Some(s) => if trim(s.as_str()).unicode_len() > 0 {
            Some(s.clone())
        } else {
            None
        },
        None => None,
    }
}

fn opt_or(v: &Option<String>, d: &str) -> (r: String)
    ensures
        r@ == or_default(*v, d@),
{
    match opt(v) {
        Some(s) => s,
        None => String::from_str(d),
    }
}

/// Every character is an ASCII decimal digit.
pub open spec fn all_digits(d: Seq<char>) -> bool {
    forall|i: int| 0 <= i < d.len() ==> '0' <= #[trigger] d[i] <= '9'
}

/// The number a run of decimal digits spells.
pub open spec fn digits_value(d: Seq<char>) -> int
    decreases d.len(),
{
    if d.len() == 0 {
        0
    } else {
        digits_value(d.drop_last()) * 10 + (d.last() as int - '0' as int)
    }
}

/// What `str::parse::<i64>` makes of a text: an optional `+` or `-` followed
/// by one or more ASCII digits, whose value fits in an `i64`; anything else
/// (whitespace included) is no number.
pub open spec fn parsed_i64(s: Seq<char>) -> Option<i64> {
    let signed = s.len() > 0 && (s[0] == '-' || s[0] == '+');
    let d = if signed { s.drop_first() } else { s };
    let v = if signed && s[0] == '-' { -digits_value(d) } else { digits_value(d) };
    if d.len() > 0 && all_digits(d) && i64::MIN <= v <= i64::MAX {
        Some(v as i64)
    } else {
        None
    }
}

proof fn lemma_digits_value_grows(d: Seq<char>, k: int)
    requires
        all_digits(d),
        0 <= k <= d.len(),
    ensures
        digits_value(d) >= digits_value(d.subrange(0, k)) >= 0,
    decreases d.len(),
{
    if d.len() > 0 {
        assert(all_digits(d.drop_last()));
        if k == d.len() {
            assert(d.subrange(0, k) =~= d);
            lemma_digits_value_grows(d.drop_last(), 0);
        } else {
            assert(d.drop_last().subrange(0, k) =~= d.subrange(0, k));
            lemma_digits_value_grows(d.drop_last(), k);
        }
    } else {
        assert(d.subrange(0, k) =~= d);
    }
}

/// A decimal `i64` as `str::parse::<i64>` reads it: an optional sign, then
/// one or more ASCII digits, in range.
fn parse_i64(s: &str) -> (r: Option<i64>)
    ensures
        r == parsed_i64(s@),
{
    let v = crate::text::chars_of(s);
    let n = v.len();
    let signed = n > 0 && (v[0] == '-' || v[0] == '+');
    let negative = n > 0 && v[0] == '-';
    let start: usize = if signed { 1 } else { 0 };
    let ghost d = if signed { s@.drop_first() } else { s@ };
    proof {
        assert(signed == (s@.len() > 0 && (s@[0] == '-' || s@[0] == '+')));
        assert(negative == (signed && s@[0] == '-'));
        assert(d =~= s@.subrange(start as int, n as int));
    }
    if start == n {
        return None;
    }
    let limit: i128 = 9_223_372_036_854_775_808;
    let mut acc: i128 = 0;
    let mut i: usize = start;
    while i < n
        invariant
            v@ == s@,
            n == s@.len(),
            start <= i <= n,
            start < n,
            d == s@.subrange(start as int, n as int),
            d == (if s@.len() > 0 && (s@[0] == '-' || s@[0] == '+') {
                s@.drop_first()
            } else {
                s@
            }),
            all_digits(d.subrange(0, i - start)),
            acc == digits_value(d.subrange(0, i - start)),
            0 <= acc <= limit,
            limit == 9_223_372_036_854_775_808,
        decreases n - i,
    {
        let c = v[i];
        if !('0' <= c && c <= '9') {
            proof {
                assert(d[i - start] == c);
                assert(!('0' <= d[i - start] <= '9'));
                assert(!all_digits(d));
            }
            return None;
        }
        let next: i128 = acc * 10 + (c as u32 - 48u32) as i128;
        proof {
            let p = d.subrange(0, i + 1 - start);
            assert(p.drop_last() =~= d.subrange(0, i - start));
            assert(p.last() == c);
            assert(all_digits(p));
            assert(digits_value(p) == next);
        }
        if next > limit {
            proof {
                if all_digits(d) {
                    lemma_digits_value_grows(d, i + 1 - start);
                    assert(digits_value(d) > limit);
                }
                assert(parsed_i64(s@) is None);
            }
            return None;
        }
        acc = next;
        i = i + 1;
    }
    proof {
        assert(d.subrange(0, n - start) =~= d);
    }
    if negative {
        Some((-acc) as i64)
    } else if acc > 9_223_372_036_854_775_807 {
        None
    } else {
        Some(acc as i64)
    }
}

/// Which required variable is missing.
#[derive(Debug, Clone, Copy, PartialEq, Eq, Structural)]
pub enum ConfigError {
    MissingDatabaseUrl,
    MissingJwtSecret,
}

impl ConfigError {
    /// The sentence the process exits with.
    pub fn message(&self) -> (s: &'static str)
        ensures
            s@ == match self {
                ConfigError::MissingDatabaseUrl => "DATABASE_URL is required"@,
                ConfigError::MissingJwtSecret => "JWT_SECRET is required"@,
            },
    {
        match self {
            ConfigError::MissingDatabaseUrl => "DATABASE_URL is required",
            ConfigError::MissingJwtSecret => "JWT_SECRET is required",
        }
    }
}

impl Config {
    /// Applies the documented defaults to the raw environment: only
    /// `DATABASE_URL` and `JWT_SECRET` are required.
    pub fn from_vars(env: &EnvVars) -> (r: Result<Config, ConfigError>)
        ensures
            set_value(env.database_url) is None ==> r == Err::<Config, ConfigError>(ConfigError::MissingDatabaseUrl),
            set_value(env.database_url) is Some && set_value(env.jwt_secret) is None ==> r == Err::<Config, ConfigError>(ConfigError::MissingJwtSecret),
            set_value(env.database_url) is Some && set_value(env.jwt_secret) is Some ==> r is Ok,
            r matches Ok(c) ==> {
                &&& Some(c.database_url@) == set_value(env.database_url)
                &&& Some(c.jwt_secret@) == set_value(env.jwt_secret)
                &&& crate::text::opt_view(c.resend_api_key) == set_value(env.resend_api_key)
                &&& c.email_from@ == or_default(env.email_from_address, "Dulac My Camp <no-reply@dulacmycamp.com>"@)
                &&& c.frontend_url@ == or_default(env.frontend_url, "http://localhost:5173"@)
                &&& crate::text::opt_view(c.legacy_frontend_url) == set_value(env.legacy_frontend_url)
                &&& c.api_base_url@ == or_default(env.api_base_url, "http://localhost:8080"@)
                &&& crate::text::opt_view(c.owner_email) == set_value(env.owner_email)
                &&& crate::text::opt_view(c.admin_email) == set_value(env.admin_email)
                &&& c.noaa_station_id@ == or_default(env.noaa_station_id, "8762928"@)
                &&& c.capacity_adults == match set_value(env.capacity_adults) {
                    Some(s) => match parsed_i64(s) {
                        Some(n) => n,
                        None => 10,
                    },
                    None => 10,
                }
                &&& c.bind_addr@ == match set_value(env.bind_addr) {
                    Some(s) => s,
                    None => "0.0.0.0:"@ + or_default(env.port, "8080"@),
                }
                &&& c.upload_dir@ == or_default(env.upload_dir, "/data/uploads"@)
            },
    {
        let database_url = match opt(&env.database_url) {
            Some(v) => v,
            None => {
                return Err(ConfigError::MissingDatabaseUrl);
            },
        };
        let jwt_secret = match opt(&env.jwt_secret) {
            Some(v) => v,
            None => {
                return Err(ConfigError::MissingJwtSecret);
            },
        };
        let capacity_adults = match opt(&env.capacity_adults) {
            Some(v) => match parse_i64(v.as_str()) {
                Some(n) => n,
                None => 10,
            },
            None => 10,
        };
        let bind_addr = match opt(&env.bind_addr) {
            Some(v) => v,
            None => {
                let port = opt_or(&env.port, "8080");
                let mut s = String::from_str("0.0.0.0:");
                s.append(port.as_str());
                s
            },
        };
        Ok(
            Config {
                database_url,
                jwt_secret,
                resend_api_key: opt(&env.resend_api_key),
                email_from: opt_or(&env.email_from_address, "Dulac My Camp <no-reply@dulacmycamp.com>"),
                frontend_url: opt_or(&env.frontend_url, "http://localhost:5173"),
                legacy_frontend_url: opt(&env.legacy_frontend_url),
                api_base_url: opt_or(&env.api_base_url, "http://localhost:8080"),
                owner_email: opt(&env.owner_email),
                admin_email: opt(&env.admin_email),
                noaa_station_id: opt_or(&env.noaa_station_id, "8762928"),
                capacity_adults,
                bind_addr,
                upload_dir: opt_or(&env.upload_dir, "/data/uploads"),
            },
        )
    }
}

/// `s` without any trailing `/`.
pub open spec fn without_trailing_slashes(s: Seq<char>) -> Seq<char>
    decreases s.len(),
{
    if s.len() > 0 && s.last() == '/' {
        without_trailing_slashes(s.drop_last())
    } else {
        s
    }
}

/// Drops every trailing `/`, as `trim_end_matches('/')` does.
pub fn trim_trailing_slashes(s: &str) -> (r: &str)
    ensures
        r@ == without_trailing_slashes(s@),
{
    let v = crate::text::chars_of(s);
    let mut j: usize = v.len();
    proof {
        assert(s@.subrange(0, j as int) =~= s@);
    }
    while j > 0 && v[j - 1] == '/'
        invariant
            v@ == s@,
            j <= v@.len(),
            without_trailing_slashes(s@) == without_trailing_slashes(s@.subrange(0, j as int)),
        decreases j,
    {
        proof {
            assert(s@.subrange(0, j as int).drop_last() =~= s@.subrange(0, j - 1));
        }
        j = j - 1;
    }
    proof {
        let t = s@.subrange(0, j as int);
        if t.len() > 0 {
            assert(t.last() == v@[j - 1]);
        }
    }
    s.substring_char(0, j)
}

/// Whether the `http` crate accepts a text as a header value: every byte of
/// it a tab or at least a space and not DEL, so every character a tab, a
/// printable ASCII one, or any non-ASCII one (whose UTF-8 bytes all lie above
/// DEL).
pub open spec fn header_value_accepts(s: Seq<char>) -> bool {
    forall|i: int|
        0 <= i < s.len() ==> (#[trigger] s[i] == '\t' || (s[i] as u32 >= 32 && s[i] as u32 != 127))
}

/// Calls `HeaderValue::from_str` and reports whether it succeeded; the
/// `http` crate checks each byte with `b >= 32 && b != 127 || b == b'\t'`.
#[verifier::external_body]
fn is_header_value(s: &str) -> (b: bool)
    ensures
        b == header_value_accepts(s@),
{
    axum::http::HeaderValue::from_str(s).is_ok()
}

/// A configured URL as an origin: trimmed, trailing slashes dropped, and
/// kept only when something usable is left.
pub open spec fn origin_of(url: Seq<char>) -> Option<Seq<char>> {
    let u = without_trailing_slashes(trim_spec(url));
    if u.len() > 0 && header_value_accepts(u) {
        Some(u)
    } else {
        None
    }
}

pub open spec fn origins_spec(frontend_url: Seq<char>, legacy: Option<Seq<char>>) -> Seq<Seq<char>> {
    let dev = seq!["http://localhost:5173"@, "http://127.0.0.1:5173"@];
    let with_front = match origin_of(frontend_url) {
        Some(o) => dev.push(o),
        None => dev,
    };
    match legacy {
        Some(l) => match origin_of(l) {
            Some(o) => with_front.push(o),
            None => with_front,
        },
        None => with_front,
    }
}

fn push_origin(origins: &mut Vec<String>, url: &str)
    ensures
        final(origins)@.map_values(|o: String| o@) == match origin_of(url@) {
            Some(o) => old(origins)@.map_values(|o: String| o@).push(o),
            None => old(origins)@.map_values(|o: String| o@),
        },
{
    let u = trim_trailing_slashes(trim(url));
    if u.unicode_len() == 0 {
        return;
    }
    if is_header_value(u) {
        origins.push(String::from_str(u));
        proof {
            assert(final(origins)@.map_values(|o: String| o@) =~= old(origins)@.map_values(|o: String| o@).push(u@));
        }
    }
}

/// The browser origins allowed to call this API: the two local dev servers,
/// the live frontend, and a retired address while links to it circulate.
pub fn allowed_origins(frontend_url: &str, legacy_frontend_url: Option<&str>) -> (v: Vec<String>)
    ensures
        v@.map_values(|o: String| o@) == origins_spec(
            frontend_url@,
            match legacy_frontend_url {
                Some(l) => Some(l@),
                None => None,
            },
        ),
{
    let mut origins: Vec<String> = Vec::new();
    origins.push(String::from_str("http://localhost:5173"));
    origins.push(String::from_str("http://127.0.0.1:5173"));
    proof {
        assert(origins@.map_values(|o: String| o@) =~= seq!["http://localhost:5173"@, "http://127.0.0.1:5173"@]);
    }
    push_origin(&mut origins, frontend_url);
    match legacy_frontend_url {
        Some(l) => push_origin(&mut origins, l),
        None => {},
    }
    origins
}

/// A blank legacy address adds nothing: it reads exactly as an unset one.
pub proof fn law_blank_legacy_adds_nothing(frontend_url: Seq<char>, legacy: Seq<char>)
    requires
        trim_spec(legacy).len() == 0,
    ensures
        origins_spec(frontend_url, Some(legacy)) == origins_spec(frontend_url, None),
{
    assert(without_trailing_slashes(trim_spec(legacy)) == trim_spec(legacy));
}

} // verus!

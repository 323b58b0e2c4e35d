//! Passwordless sign-in (an emailed one-time code) and the optional admin
//! password login: what a session carries, how a bearer token is read, and
//! the answers each way in can give. The admin password login fails in one
//! way only, whatever actually went wrong.

use crate::error::{AppError, ErrorKind};
use crate::text::{byte_len_at_least, contains_char, decimal, digit_char, push_decimal, starts_with, trim, trim_spec, utf8_len};
use crate::users::{User, UserWithHash};
use rand::Rng;
use vstd::prelude::*;

verus! {

/// How long a login code stays valid, in minutes.
pub const OTP_TTL_MINUTES: i64 = 10;

/// How long a session lasts, in hours.
pub const JWT_TTL_HOURS: i64 = 24;

/// What a session token carries.
#[derive(Debug, Clone)]
pub struct Claims {
    /// User id, as a hyphenated UUID.
    pub sub: String,
    pub email: String,
    pub role: String,
    /// Expiry, in seconds since the Unix epoch.
    pub exp: i64,
    /// Issue time, in seconds since the Unix epoch.
    pub iat: i64,
}

/// The last `n` hex digits of `v`, most significant first.
pub open spec fn hex_digits(v: int, n: nat) -> Seq<char>
    decreases n,
{
    if n == 0 {
        Seq::empty()
    } else {
        hex_digits(v / 16, (n - 1) as nat).push(crate::bookings::hex_digit(v % 16))
    }
}

/// The hyphenated lowercase text uuid renders for an id: its 32 hex digits,
/// most significant first, grouped 8-4-4-4-12.
pub open spec fn uuid_text(id: u128) -> Seq<char> {
    let h = hex_digits(id as int, 32);
    h.subrange(0, 8) + "-"@ + h.subrange(8, 12) + "-"@ + h.subrange(12, 16) + "-"@ + h.subrange(16, 20) + "-"@
        + h.subrange(20, 32)
}

/// The id uuid parses from a text, if any.
pub uninterp spec fn uuid_parsed(s: Seq<char>) -> Option<u128>;

/// What `str::to_lowercase` makes of a text.
pub uninterp spec fn lowercase_of(s: Seq<char>) -> Seq<char>;

/// Calls `Uuid::from_u128(id).to_string()`: the hyphenated lowercase form
/// (uuid's `fmt.rs`), which `Uuid::parse_str` reads back as the same id.
#[verifier::external_body]
fn uuid_to_text(id: u128) -> (s: String)
    ensures
        s@ == uuid_text(id),
        uuid_parsed(s@) == Some(id),
{
    uuid::Uuid::from_u128(id).to_string()
}

/// Calls `Uuid::parse_str`, keeping the id as an integer.
#[verifier::external_body]
fn uuid_from_text(s: &str) -> (r: Option<u128>)
    ensures
        r == uuid_parsed(s@),
{
    match uuid::Uuid::parse_str(s) {
        Ok(u) => Some(u.as_u128()),
        Err(_) => None,
    }
}

/// Calls `str::to_lowercase`.
#[verifier::external_body]
fn to_lowercase(s: &str) -> (r: String)
    ensures
        r@ == lowercase_of(s@),
{
    s.to_lowercase()
}

/// Calls rand's `thread_rng().gen_range(0..1_000_000)`: a number below a
/// million, and nothing else is known of it.
#[verifier::external_body]
fn random_below_a_million() -> (n: u32)
    ensures
        n < 1_000_000,
{
    rand::thread_rng().gen_range(0..1_000_000)
}

impl Claims {
    /// The claims of a session for `user` issued at `now_secs`.
    pub fn for_user(user: &User, now_secs: i64) -> (c: Claims)
        requires
            now_secs <= i64::MAX - JWT_TTL_HOURS * 3600,
        ensures
            c.sub@ == uuid_text(user.id),
            uuid_parsed(c.sub@) == Some(user.id),
            c.email@ == user.email@,
            c.role@ == user.role@,
            c.iat == now_secs,
            c.exp == now_secs + JWT_TTL_HOURS * 3600,
    {
        Claims {
            sub: uuid_to_text(user.id),
            email: user.email.clone(),
            role: user.role.clone(),
            iat: now_secs,
            exp: now_secs + JWT_TTL_HOURS * 3600,
        }
    }
}

/// The token of an `Authorization` header: what follows `Bearer `, trimmed,
/// when anything does.
pub open spec fn bearer_spec(header: Seq<char>) -> Option<Seq<char>> {
    if header.len() >= 7 && header.subrange(0, 7) == "Bearer "@ && trim_spec(header.subrange(7, header.len() as int)).len() > 0 {
        Some(trim_spec(header.subrange(7, header.len() as int)))
    } else {
        None
    }
}

pub fn bearer_token(header: &str) -> (r: Option<&str>)
    ensures
        match r {
            Some(t) => bearer_spec(header@) == Some(t@),
            None => bearer_spec(header@) is None,
        },
{
    if !starts_with(header, "Bearer ") {
        proof {
            reveal_strlit("Bearer ");
        }
        return None;
    }
    proof {
        reveal_strlit("Bearer ");
    }
    let n = header.unicode_len();
    let rest = header.substring_char(7, n);
    let t = trim(rest);
    if t.unicode_len() == 0 {
        None
    } else {
        Some(t)
    }
}

/// The id a session's `sub` names.
pub fn user_id_from_claims(claims: &Claims) -> (r: Result<u128, AppError>)
    ensures
        match uuid_parsed(claims.sub@) {
            Some(id) => r == Ok::<u128, AppError>(id),
            None => r is Err && r->Err_0@ == (ErrorKind::Unauthorized, "Malformed token."@),
        },
{
    match uuid_from_text(claims.sub.as_str()) {
        Some(id) => Ok(id),
        None => Err(AppError::new(ErrorKind::Unauthorized, "Malformed token.")),
    }
}

/// The answer to a token that does not verify.
pub fn session_expired() -> (e: AppError)
    ensures
        e@ == (ErrorKind::Unauthorized, "Your session has expired. Please log in again."@),
{
    AppError::new(ErrorKind::Unauthorized, "Your session has expired. Please log in again.")
}

/// A request that must be signed in, by an account that is not blocked: the
/// account is re-read on every request, so a block lands on an open session.
pub fn require_signed_in(user: Option<User>) -> (r: Result<User, AppError>)
    ensures
        match user {
            Some(u) => if u.blocked_at is Some {
                r is Err && r->Err_0@ == (ErrorKind::Unauthorized, "This account has been blocked."@)
            } else {
                r == Ok::<User, AppError>(u)
            },
            None => r is Err && r->Err_0@ == (ErrorKind::Unauthorized, "Sign in to continue."@),
        },
{
    match user {
        Some(u) => {
            if u.is_blocked() {
                return Err(AppError::new(ErrorKind::Unauthorized, "This account has been blocked."));
            }
            Ok(u)
        },
        None => Err(AppError::new(ErrorKind::Unauthorized, "Sign in to continue.")),
    }
}

/// A request that must come from an admin.
pub fn require_admin(user: Option<User>) -> (r: Result<User, AppError>)
    ensures
        match user {
            Some(u) => if u.blocked_at is Some {
                r is Err && r->Err_0@ == (ErrorKind::Unauthorized, "This account has been blocked."@)
            } else if u.admin() {
                r == Ok::<User, AppError>(u)
            } else {
                r is Err && r->Err_0@ == (ErrorKind::Forbidden, "Admins only."@)
            },
            None => r is Err && r->Err_0@ == (ErrorKind::Unauthorized, "Sign in to continue."@),
        },
{
    let u = require_signed_in(user)?;
    if !u.is_admin() {
        return Err(AppError::new(ErrorKind::Forbidden, "Admins only."));
    }
    Ok(u)
}

/// An address as the sign-in endpoints key it: trimmed and lower-cased.
pub open spec fn normalized_email(raw: Seq<char>) -> Seq<char> {
    lowercase_of(trim_spec(raw))
}

pub fn normalize_email(raw: &str) -> (s: String)
    ensures
        s@ == normalized_email(raw@),
{
    to_lowercase(trim(raw))
}

/// A plausible address: holds an `@` and is at least five bytes long.
pub open spec fn plausible_email(s: Seq<char>) -> bool {
    s.contains('@') && utf8_len(s) >= 5
}

/// The normalized address a code request is for, or the refusal.
pub fn validate_login_email(raw: &str) -> (r: Result<String, AppError>)
    ensures
        r is Ok <==> plausible_email(normalized_email(raw@)),
        r is Ok ==> r->Ok_0@ == normalized_email(raw@),
        r is Err ==> r->Err_0@ == (ErrorKind::BadRequest, "Enter a valid email address."@),
{
    let email = normalize_email(raw);
    if !contains_char(email.as_str(), '@') || !byte_len_at_least(email.as_str(), 5) {
        return Err(AppError::new(ErrorKind::BadRequest, "Enter a valid email address."));
    }
    Ok(email)
}

/// The address an admin typed for a guest, trimmed, or the refusal.
pub fn validate_guest_email(raw: &str) -> (r: Result<&str, AppError>)
    ensures
        r is Ok <==> plausible_email(trim_spec(raw@)),
        r matches Ok(s) ==> s@ == trim_spec(raw@),
        r is Err ==> r->Err_0@ == (ErrorKind::BadRequest, "Enter a valid guest email address."@),
{
    let email = trim(raw);
    if !contains_char(email, '@') || !byte_len_at_least(email, 5) {
        return Err(AppError::new(ErrorKind::BadRequest, "Enter a valid guest email address."));
    }
    Ok(email)
}

/// The six digits of a login code: `n` zero-padded to six places.
pub open spec fn six_digits(n: int) -> Seq<char> {
    seq![
        digit_char((n / 100000) % 10),
        digit_char((n / 10000) % 10),
        digit_char((n / 1000) % 10),
        digit_char((n / 100) % 10),
        digit_char((n / 10) % 10),
        digit_char(n % 10),
    ]
}

/// `n` as a six-digit code.
pub fn otp_code(n: u32) -> (s: String)
    requires
        n < 1_000_000,
    ensures
        s@ == six_digits(n as int),
{
    let mut s = String::new();
    s.push(crate::text::digit_char_of((n / 100000 % 10) as u64));
    s.push(crate::text::digit_char_of((n / 10000 % 10) as u64));
    s.push(crate::text::digit_char_of((n / 1000 % 10) as u64));
    s.push(crate::text::digit_char_of((n / 100 % 10) as u64));
    s.push(crate::text::digit_char_of((n / 10 % 10) as u64));
    s.push(crate::text::digit_char_of((n % 10) as u64));
    assert(s@ =~= six_digits(n as int));
    s
}

/// A fresh random six-digit login code.
pub fn new_otp_code() -> (s: String)
    ensures
        s@.len() == 6,
        forall|i: int| 0 <= i < 6 ==> '0' <= #[trigger] s@[i] <= '9',
{
    let n = random_below_a_million();
    otp_code(n)
}

/// Minutes to wait, rounded up, for a wait of `secs` seconds.
pub open spec fn minutes_up(secs: int) -> int {
    (secs + 59) / 60
}

fn push_minutes(s: &mut String, retry: u64)
    ensures
        final(s)@ == old(s)@ + decimal(minutes_up(retry as int) as nat) + if minutes_up(retry as int) == 1 {
            " minute"@
        } else {
            " minutes"@
        },
{
    let minutes: u64 = retry / 60 + if retry % 60 == 0 {
        0
    } else {
        1
    };
    assert(minutes == minutes_up(retry as int));
    push_decimal(s, minutes);
    if minutes == 1 {
        s.append(" minute");
    } else {
        s.append(" minutes");
    }
}

pub open spec fn too_many_attempts_text(retry: int) -> Seq<char> {
    "Too many sign-in attempts. Try again in "@ + decimal(minutes_up(retry) as nat) + if minutes_up(retry) == 1 {
        " minute"@
    } else {
        " minutes"@
    } + ", or sign in with an emailed code."@
}

/// The refusal once the password budget is spent: it names the wait in whole
/// minutes and points at the way in that still works.
pub fn too_many_attempts(retry: u64) -> (e: AppError)
    ensures
        e@ == (ErrorKind::TooManyRequests, too_many_attempts_text(retry as int)),
{
    let mut s = String::from_str("Too many sign-in attempts. Try again in ");
    push_minutes(&mut s, retry);
    s.append(", or sign in with an emailed code.");
    AppError::with_message(ErrorKind::TooManyRequests, s)
}

pub open spec fn network_limited_text(retry: int) -> Seq<char> {
    "Too many login attempts from this network. Try again in "@ + decimal(minutes_up(retry) as nat)
        + if minutes_up(retry) == 1 {
        " minute"@
    } else {
        " minutes"@
    } + "."@
}

/// The refusal when a network has asked for too many codes.
pub fn otp_network_limited(retry: u64) -> (e: AppError)
    ensures
        e@ == (ErrorKind::TooManyRequests, network_limited_text(retry as int)),
{
    let mut s = String::from_str("Too many login attempts from this network. Try again in ");
    push_minutes(&mut s, retry);
    s.append(".");
    AppError::with_message(ErrorKind::TooManyRequests, s)
}

pub open spec fn inbox_limited_text(retry: int) -> Seq<char> {
    "We just sent a code to that address. Check your inbox, or try again in "@ + decimal(retry as nat)
        + " seconds."@
}

/// The refusal when an address was sent a code moments ago.
pub fn otp_inbox_limited(retry: u64) -> (e: AppError)
    ensures
        e@ == (ErrorKind::TooManyRequests, inbox_limited_text(retry as int)),
{
    let mut s = String::from_str("We just sent a code to that address. Check your inbox, or try again in ");
    push_decimal(&mut s, retry);
    s.append(" seconds.");
    AppError::with_message(ErrorKind::TooManyRequests, s)
}

/// The answer to a code that does not match an open, unexpired one.
pub fn otp_rejected() -> (e: AppError)
    ensures
        e@ == (ErrorKind::Unauthorized, "That code is invalid or has expired."@),
{
    AppError::new(ErrorKind::Unauthorized, "That code is invalid or has expired.")
}

/// Password sign-in is for admins; guests are told so plainly.
pub fn require_password_eligible(user: &User) -> (r: Result<(), AppError>)
    ensures
        r is Ok <==> user.admin(),
        r is Err ==> r->Err_0@ == (
            ErrorKind::Forbidden,
            "Password sign-in is for admin accounts. Guests sign in with an emailed code."@,
        ),
{
    if user.is_admin() {
        return Ok(());
    }
    Err(
        AppError::new(
            ErrorKind::Forbidden,
            "Password sign-in is for admin accounts. Guests sign in with an emailed code.",
        ),
    )
}

pub open spec fn invalid_credentials_text() -> Seq<char> {
    "That email and password don't match an account."@
}

/// The single answer to every way a password login can fail.
pub fn invalid_credentials() -> (e: AppError)
    ensures
        e@ == (ErrorKind::Unauthorized, invalid_credentials_text()),
{
    AppError::new(ErrorKind::Unauthorized, "That email and password don't match an account.")
}

/// A session is owed exactly to an admin row that has a hash the password
/// matched.
pub open spec fn authenticates(found: Option<UserWithHash>, password_matches: bool) -> bool {
    found matches Some(f) && f.user.admin() && f.password_hash is Some && password_matches
}

/// Whether a looked-up row plus the outcome of the password check add up to
/// a session, and nothing else about why not.
pub fn authenticate<'a>(found: Option<&'a UserWithHash>, password_matches: bool) -> (r: Result<&'a User, AppError>)
    ensures
        r is Ok <==> authenticates(
            match found {
                Some(f) => Some(*f),
                None => None,
            },
            password_matches,
        ),
        r matches Ok(u) ==> found matches Some(f) && *u == f.user,
        r is Err ==> r->Err_0@ == (ErrorKind::Unauthorized, invalid_credentials_text()),
{
    match found {
        Some(f) => {
            if f.user.is_admin() && f.password_hash.is_some() && password_matches {
                Ok(&f.user)
            } else {
                Err(invalid_credentials())
            }
        },
        None => Err(invalid_credentials()),
    }
}

/// Every failing login looks the same from outside: unknown address, guest,
/// admin without a password, and wrong password all earn one identical
/// error, whose text names no role and no reason.
pub proof fn law_every_failure_is_identical(
    a: Result<&User, AppError>,
    b: Result<&User, AppError>,
)
    requires
        a is Err ==> a->Err_0@ == (ErrorKind::Unauthorized, invalid_credentials_text()),
        b is Err ==> b->Err_0@ == (ErrorKind::Unauthorized, invalid_credentials_text()),
        a is Err,
        b is Err,
    ensures
        a->Err_0@ == b->Err_0@,
{
}

/// What a caller is told after setting a password.
pub fn password_set_message(replacing: bool) -> (s: &'static str)
    ensures
        s@ == if replacing {
            "Password updated."@
        } else {
            "Password set."@
        },
{
    if replacing {
        "Password updated."
    } else {
        "Password set."
    }
}

} // verus!

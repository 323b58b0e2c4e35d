//! Password hashing for the optional admin password login: argon2id with the
//! crate's default parameters, stored as a PHC string. The policy is a length
//! window and nothing else.

use crate::text::str_eq;
use argon2::password_hash::Error as PhcError;
use argon2::password_hash::SaltString;
use argon2::PasswordHasher;
use argon2::PasswordVerifier;
use vstd::prelude::*;

verus! {

/// Minimum password length, in characters.
pub const MIN_PASSWORD_LEN: usize = 10;

/// Maximum password length, in characters.
pub const MAX_PASSWORD_LEN: usize = 256;

#[verifier::external_type_specification]
#[verifier::external_body]
pub struct ExPhcError(PhcError);

/// Whether argon2 accepts `password` against the stored PHC string `stored`.
pub uninterp spec fn argon2_accepts(password: Seq<char>, stored: Seq<char>) -> bool;

/// Whether a PHC string names the argon2id algorithm.
pub open spec fn is_argon2id_phc(s: Seq<char>) -> bool {
    s.len() >= 10 && s.subrange(0, 10) == "$argon2id$"@
}

/// Draws a salt with `SaltString::generate` from the operating system's
/// random source (16 random bytes, B64 encoded), then calls
/// `Argon2::hash_password` with argon2's default parameters (argon2id) and
/// renders the PHC string.
///
/// The string depends on the salt; what holds of every outcome is that it is
/// an argon2id PHC string which the same default `Argon2` verifies the
/// password against (`verify_password` recomputes the hash with the
/// parameters and salt the string carries). With a generated 16-byte salt and
/// the default parameters, hashing refuses only a password of more than
/// `u32::MAX` bytes; a character takes at most four bytes in UTF-8, so any
/// password of at most `u32::MAX / 4` characters hashes.
#[verifier::external_body]
fn argon2_hash_fresh(password: &str) -> (r: Result<String, PhcError>)
    ensures
        r matches Ok(h) ==> argon2_accepts(password@, h@) && is_argon2id_phc(h@),
        4 * password@.len() <= u32::MAX ==> r is Ok,
{
    let salt = SaltString::generate(&mut argon2::password_hash::rand_core::OsRng);
    argon2::Argon2::default().hash_password(password.as_bytes(), &salt).map(|h| h.to_string())
}

/// Renders a `password_hash::Error` with its `Display` impl.
#[verifier::external_body]
fn phc_error_text(e: &PhcError) -> String {
    format!("{e}")
}

/// Calls `PasswordHash::new` on the stored string and, when it parses,
/// `Argon2::verify_password` with argon2's default parameters; false when the
/// stored string is not a PHC string. The answer is named, not stated.
#[verifier::external_body]
fn argon2_check(password: &str, stored: &str) -> (b: bool)
    ensures
        b == argon2_accepts(password@, stored@),
{
    match argon2::password_hash::PasswordHash::new(stored) {
        Ok(parsed) => argon2::Argon2::default().verify_password(password.as_bytes(), &parsed).is_ok(),
        Err(_) => false,
    }
}

pub open spec fn too_short_text() -> Seq<char> {
    "Password must be at least 10 characters."@
}

pub open spec fn too_long_text() -> Seq<char> {
    "Password must be at most 256 characters."@
}

/// The reason a candidate is refused, if it is: fewer than ten or more than
/// 256 characters (characters, not bytes).
pub open spec fn password_refusal(password: Seq<char>) -> Option<Seq<char>> {
    if password.len() < MIN_PASSWORD_LEN {
        Some(too_short_text())
    } else if password.len() > MAX_PASSWORD_LEN {
        Some(too_long_text())
    } else {
        None
    }
}

/// Checks a candidate against the length policy.
pub fn validate(password: &str) -> (r: Result<(), String>)
    ensures
        match password_refusal(password@) {
            Some(m) => r matches Err(e) && e@ == m,
            None => r is Ok,
        },
{
    let len = password.unicode_len();
    if len < MIN_PASSWORD_LEN {
        return Err(String::from_str("Password must be at least 10 characters."));
    }
    if len > MAX_PASSWORD_LEN {
        return Err(String::from_str("Password must be at most 256 characters."));
    }
    Ok(())
}

/// Hashes a password for storage under a fresh random salt, after checking
/// it against the policy, so nothing the policy refuses is ever stored.
pub fn hash(password: &str) -> (r: Result<String, String>)
    ensures
        password_refusal(password@) matches Some(m) ==> (r matches Err(e) && e@ == m),
        r is Ok ==> password_refusal(password@) is None,
        r matches Ok(h) ==> argon2_accepts(password@, h@) && is_argon2id_phc(h@),
        password_refusal(password@) is None ==> r is Ok,
{
    validate(password)?;
    match argon2_hash_fresh(password) {
        Ok(h) => Ok(h),
        Err(e) => {
            let mut m = String::from_str("hashing failed: ");
            let t = phc_error_text(&e);
            m.append(t.as_str());
            Err(m)
        },
    }
}

/// Whether `password` matches a stored PHC hash; a hash that does not parse
/// is no match.
pub fn verify(password: &str, stored_hash: &str) -> (b: bool)
    ensures
        b == argon2_accepts(password@, stored_hash@),
{
    argon2_check(password, stored_hash)
}

/// A stand-in hash for logins that have no stored hash to check: an argon2id
/// PHC string of a fresh 256-bit random secret that is dropped at once, so no
/// input a caller can send matches it. Made once per process.
pub fn new_dummy_hash() -> (h: String)
    ensures
        is_argon2id_phc(h@),
{
    let secret = crate::bookings::new_token();
    match hash(secret.as_str()) {
        Ok(h) => h,
        Err(_) => {
            proof {
                assert(password_refusal(secret@) is None);
            }
            String::new()
        },
    }
}

/// Runs exactly one argon2 verification, against the stand-in hash from
/// [`new_dummy_hash`], so an unknown account costs what a wrong password
/// costs; answers false whatever was sent.
pub fn verify_dummy(password: &str, dummy_hash: &str) -> (b: bool)
    ensures
        !b,
{
    let _ = argon2_check(password, dummy_hash);
    false
}

} // verus!

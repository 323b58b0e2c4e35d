//! Accounts: who someone is, what their role lets them do, and how they are
//! named to other people.

use crate::error::{AppError, ErrorKind};
use crate::text::{cleaned, first_word, first_word_of, is_blank, opt_view, str_eq, trim, trim_spec};
use vstd::prelude::*;

verus! {

/// A row of the `users` table. Identifiers are UUIDs held as 128-bit
/// integers; instants are microseconds since the Unix epoch.
#[derive(Debug, Clone)]
pub struct User {
    pub id: u128,
    pub email: String,
    pub full_name: Option<String>,
    pub phone: Option<String>,
    pub relationship: Option<String>,
    pub boat_info: Option<String>,
    pub notes: Option<String>,
    pub role: String,
    /// Receives the one-click approve/deny email.
    pub is_owner: bool,
    /// When the account was blocked, or `None` while in good standing.
    pub blocked_at: Option<i64>,
    pub avatar_url: Option<String>,
    /// Whether an admin password is set (never the hash itself).
    pub has_password: bool,
    pub last_login_at: Option<i64>,
    pub created_at: i64,
    pub updated_at: i64,
}

/// A user together with their stored password hash; only the password login
/// reads it.
#[derive(Debug, Clone)]
pub struct UserWithHash {
    pub user: User,
    pub password_hash: Option<String>,
}

pub open spec fn role_is_admin(role: Seq<char>) -> bool {
    role == "admin"@
}

impl User {
    pub open spec fn admin(&self) -> bool {
        role_is_admin(self.role@)
    }

    /// Admins and camp owners see who is on a booking.
    pub open spec fn staff(&self) -> bool {
        self.admin() || self.is_owner
    }

    pub fn is_admin(&self) -> (b: bool)
        ensures
            b == self.admin(),
    {
        str_eq(self.role.as_str(), "admin")
    }

    /// Whether an admin has blocked this account.
    pub fn is_blocked(&self) -> (b: bool)
        ensures
            b == self.blocked_at.is_some(),
    {
        self.blocked_at.is_some()
    }

    /// Whether this user may see who is on a booking: admins and the camp
    /// owner.
    pub fn sees_guest_details(&self) -> (b: bool)
        ensures
            b == self.staff(),
    {
        self.is_admin() || self.is_owner
    }

    /// The full name unless it is missing or blank, else the email address.
    pub fn display_name(&self) -> (s: String)
        ensures
            s@ == display_name_of(opt_view(self.full_name), self.email@),
    {
        match &self.full_name {
            Some(n) => {
                let t = trim(n.as_str());
                if t.unicode_len() > 0 {
                    n.clone()
                } else {
                    self.email.clone()
                }
            },
            None => self.email.clone(),
        }
    }
}

pub open spec fn display_name_of(full_name: Option<Seq<char>>, email: Seq<char>) -> Seq<char> {
    match full_name {
        Some(n) => if trim_spec(n).len() > 0 {
            n
        } else {
            email
        },
        None => email,
    }
}

/// How a person is named to other people: the first word of their full
/// name, or "A guest" — never their email address.
pub open spec fn first_name_of(full_name: Option<Seq<char>>) -> Seq<char> {
    match full_name {
        Some(n) => if first_word(n).len() > 0 {
            first_word(n)
        } else {
            "A guest"@
        },
        None => "A guest"@,
    }
}

/// First word of a full name — "Jean Dugas" reads as "Jean", and a missing
/// or blank name as "A guest".
pub fn first_name(full_name: Option<&str>) -> (s: String)
    ensures
        s@ == first_name_of(match full_name {
            Some(n) => Some(n@),
            None => None,
        }),
{
    match full_name {
        Some(n) => match first_word_of(n) {
            Some(w) => String::from_str(w),
            None => String::from_str("A guest"),
        },
        None => String::from_str("A guest"),
    }
}

/// Everything hanging off an account that a hard delete would destroy.
#[derive(Debug, Clone, Copy, Default, PartialEq, Eq, Structural)]
pub struct HistoryCounts {
    pub bookings: i64,
    pub journal: i64,
    pub messages: i64,
}

impl HistoryCounts {
    pub open spec fn none(&self) -> bool {
        self.bookings == 0 && self.journal == 0 && self.messages == 0
    }

    /// No bookings, journal entries or messages at all.
    pub fn is_empty(&self) -> (b: bool)
        ensures
            b == self.none(),
    {
        self.bookings == 0 && self.journal == 0 && self.messages == 0
    }
}

/// Admins are refused rather than blocked: demoting first makes the intent
/// explicit and keeps anyone from locking the panel that would undo it.
pub fn require_blockable(user: &User) -> (r: Result<(), AppError>)
    ensures
        r is Ok <==> !user.admin(),
        r is Err ==> r->Err_0@ == (
            ErrorKind::BadRequest,
            "Admin accounts can't be blocked. Remove their admin role first, then block them."@,
        ),
{
    if user.is_admin() {
        return Err(
            AppError::new(
                ErrorKind::BadRequest,
                "Admin accounts can't be blocked. Remove their admin role first, then block them.",
            ),
        );
    }
    Ok(())
}

/// An admin is never deleted, and neither is an account with any history:
/// blocking is what that case wants.
pub fn require_deletable(user: &User, history: &HistoryCounts) -> (r: Result<(), AppError>)
    ensures
        r is Ok <==> (!user.admin() && history.none()),
        user.admin() ==> r is Err && r->Err_0@ == (
            ErrorKind::BadRequest,
            "Admin accounts can't be deleted. Remove their admin role first."@,
        ),
        !user.admin() && !history.none() ==> r is Err && r->Err_0@ == (
            ErrorKind::Conflict,
            "This account has booking, journal or message history — use Block to prevent future access while keeping their record intact."@,
        ),
{
    if user.is_admin() {
        return Err(
            AppError::new(
                ErrorKind::BadRequest,
                "Admin accounts can't be deleted. Remove their admin role first.",
            ),
        );
    }
    if !history.is_empty() {
        return Err(
            AppError::new(
                ErrorKind::Conflict,
                "This account has booking, journal or message history — use Block to prevent future access while keeping their record intact.",
            ),
        );
    }
    Ok(())
}

/// The roles an admin may hand out.
pub open spec fn assignable_role(role: Seq<char>) -> bool {
    role == "guest"@ || role == "user"@ || role == "admin"@
}

/// A role change is refused when the role is unknown, or when an admin would
/// take their own admin role away.
pub fn check_role_change(actor_id: u128, target_id: u128, role: &str) -> (r: Result<(), AppError>)
    ensures
        r is Ok <==> (assignable_role(role@) && !(actor_id == target_id && role@ != "admin"@)),
        !assignable_role(role@) ==> r is Err && r->Err_0@ == (
            ErrorKind::BadRequest,
            "Role must be one of: guest, user, admin."@,
        ),
        assignable_role(role@) && actor_id == target_id && role@ != "admin"@ ==> r is Err
            && r->Err_0@ == (ErrorKind::BadRequest, "You cannot remove your own admin role."@),
{
    if !(str_eq(role, "guest") || str_eq(role, "user") || str_eq(role, "admin")) {
        return Err(AppError::new(ErrorKind::BadRequest, "Role must be one of: guest, user, admin."));
    }
    if actor_id == target_id && !str_eq(role, "admin") {
        return Err(AppError::new(ErrorKind::BadRequest, "You cannot remove your own admin role."));
    }
    Ok(())
}

/// A profile update needs a full name that is more than whitespace.
pub fn require_full_name(full_name: Option<String>) -> (r: Result<String, AppError>)
    ensures
        match cleaned(opt_view(full_name)) {
            Some(n) => r matches Ok(s) && s@ == n,
            None => r is Err && r->Err_0@ == (ErrorKind::BadRequest, "Full name is required."@),
        },
{
    match crate::text::clean(full_name) {
        Some(n) => Ok(n),
        None => Err(AppError::new(ErrorKind::BadRequest, "Full name is required.")),
    }
}

} // verus!

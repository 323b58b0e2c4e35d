//! Stay requests: the rules a new request must meet, the one-click
//! approve/deny flow's gates, cancellation, deletion, and above all what each
//! caller may see of a booking.
//!
//! Overlapping requests are deliberately not rejected: two cousins asking for
//! the same weekend is a conversation, not an error. The overlap is flagged
//! and the owner arbitrates.

use crate::dates::{Date, days_from_civil, ymd_before};
use crate::error::{AppError, ErrorKind};
use crate::text::{cleaned, concat3, decimal, first_word, opt_view, push_signed, push_str, signed_decimal, str_eq, trim};
use crate::users::{User, first_name, first_name_of};
use vstd::prelude::*;

verus! {

/// How long the buttons in the owner's email stay live, in hours.
pub const APPROVE_TOKEN_TTL_HOURS: i64 = 48;

/// Inside this many hours of check-in an approved stay can only be cancelled
/// by an admin.
pub const LATE_CANCEL_HOURS: i64 = 48;

pub const MICROS_PER_DAY: i128 = 86_400_000_000;

pub const MICROS_PER_HOUR: i128 = 3_600_000_000;

/// A row of the `bookings` table. Identifiers are UUIDs as integers;
/// instants are microseconds since the Unix epoch.
#[derive(Debug, Clone)]
pub struct Booking {
    pub id: u128,
    pub user_id: u128,
    pub check_in: Date,
    pub check_out: Date,
    pub guest_count_adults: i32,
    pub guest_count_kids: i32,
    pub has_pets: bool,
    pub other_requests: Option<String>,
    pub status: String,
    pub denied_reason: Option<String>,
    pub approved_at: Option<i64>,
    pub approved_by: Option<String>,
    /// Whether the booker keeps their identity off other people's calendars.
    pub is_private: bool,
    pub created_at: i64,
    pub updated_at: i64,
}

/// A booking joined to its guest, for views that may reveal who booked.
#[derive(Debug, Clone)]
pub struct BookingRow {
    pub booking: Booking,
    pub guest_name: Option<String>,
    pub guest_email: String,
    /// Whether a completed checkout exists for this booking.
    pub checked_out: bool,
    pub checkout_notes: Option<String>,
    /// Present once a journal entry exists for this booking.
    pub journal_id: Option<u128>,
    pub journal_status: Option<String>,
}

/// What a given caller is allowed to see about a booking. `None` fields are
/// withheld from this caller.
#[derive(Debug, Clone)]
pub struct BookingView {
    pub id: u128,
    pub check_in: Date,
    pub check_out: Date,
    pub status: String,
    pub guest_count_adults: Option<i32>,
    pub guest_count_kids: Option<i32>,
    pub is_mine: bool,
    pub user_id: Option<u128>,
    pub guest_name: Option<String>,
    pub guest_email: Option<String>,
    pub has_pets: Option<bool>,
    pub other_requests: Option<String>,
    pub denied_reason: Option<String>,
    pub approved_at: Option<i64>,
    pub approved_by: Option<String>,
    pub created_at: Option<i64>,
    pub checked_out: Option<bool>,
    pub checkout_notes: Option<String>,
    pub journal_id: Option<u128>,
    pub journal_status: Option<String>,
    pub is_private: Option<bool>,
    /// Who is at the camp these nights, first name only, and only when the
    /// calendar may name them.
    pub guest_first_name: Option<String>,
}

/// Whether the calendar may name the person on a stay: the people who run
/// the camp always; anyone else only when signed in, the booker chose to be
/// seen, and the stay is approved.
pub open spec fn shows_booker_spec(signed_in: bool, sees_guest_details: bool, is_private: bool, status: Seq<char>) -> bool {
    sees_guest_details || (signed_in && !is_private && status == "approved"@)
}

pub fn shows_booker(signed_in: bool, sees_guest_details: bool, is_private: bool, status: &str) -> (b: bool)
    ensures
        b == shows_booker_spec(signed_in, sees_guest_details, is_private, status@),
{
    sees_guest_details || (signed_in && !is_private && str_eq(status, "approved"))
}

/// The booking's own guest.
pub open spec fn viewer_is_booker(viewer: Option<User>, b: Booking) -> bool {
    viewer matches Some(v) && v.id == b.user_id
}

/// An admin or the camp owner.
pub open spec fn viewer_is_staff(viewer: Option<User>) -> bool {
    viewer matches Some(v) && v.staff()
}

/// The administrative view: the booking's own guest and the staff.
pub open spec fn sees_full(viewer: Option<User>, b: Booking) -> bool {
    viewer_is_booker(viewer, b) || viewer_is_staff(viewer)
}

/// The calendar names the booker to this viewer.
pub open spec fn names_booker(viewer: Option<User>, b: Booking) -> bool {
    shows_booker_spec(viewer is Some, viewer_is_staff(viewer), b.is_private, b.status@)
}

pub open spec fn when<T>(c: bool, v: T) -> Option<T> {
    if c {
        Some(v)
    } else {
        None
    }
}

pub open spec fn when_opt<T>(c: bool, v: Option<T>) -> Option<T> {
    if c {
        v
    } else {
        None
    }
}

/// `v` is exactly what `viewer` may see of `row`: the party travels with the
/// name, the administrative fields with `sees_full`, and the first name with
/// the calendar rule.
pub open spec fn is_projection(row: BookingRow, viewer: Option<User>, v: BookingView) -> bool {
    let b = row.booking;
    let full = sees_full(viewer, b);
    let named = names_booker(viewer, b);
    let party = full || named;
    &&& v.id == b.id
    &&& v.check_in == b.check_in
    &&& v.check_out == b.check_out
    &&& v.status@ == b.status@
    &&& v.guest_count_adults == when(party, b.guest_count_adults)
    &&& v.guest_count_kids == when(party, b.guest_count_kids)
    &&& v.is_mine == viewer_is_booker(viewer, b)
    &&& v.user_id == when(full, b.user_id)
    &&& opt_view(v.guest_name) == when(
        full,
        match row.guest_name {
            Some(n) => n@,
            None => row.guest_email@,
        },
    )
    &&& opt_view(v.guest_email) == when(full, row.guest_email@)
    &&& v.has_pets == when(full, b.has_pets)
    &&& opt_view(v.other_requests) == when_opt(full, opt_view(b.other_requests))
    &&& opt_view(v.denied_reason) == when_opt(full, opt_view(b.denied_reason))
    &&& v.approved_at == when_opt(full, b.approved_at)
    &&& opt_view(v.approved_by) == when_opt(full, opt_view(b.approved_by))
    &&& v.created_at == when(full, b.created_at)
    &&& v.checked_out == when(full, row.checked_out)
    &&& opt_view(v.checkout_notes) == when_opt(full, opt_view(row.checkout_notes))
    &&& v.journal_id == when_opt(full, row.journal_id)
    &&& opt_view(v.journal_status) == when_opt(full, opt_view(row.journal_status))
    &&& v.is_private == when(full, b.is_private)
    &&& opt_view(v.guest_first_name) == when(named, first_name_of(opt_view(row.guest_name)))
}

fn keep<T>(c: bool, v: T) -> (r: Option<T>)
    ensures
        r == when(c, v),
{
    if c {
        Some(v)
    } else {
        None
    }
}

fn keep_text(c: bool, v: &Option<String>) -> (r: Option<String>)
    ensures
        opt_view(r) == when_opt(c, opt_view(*v)),
{
    if c {
        match v {
            Some(s) => Some(s.clone()),
            None => None,
        }
    } else {
        None
    }
}

impl BookingRow {
    /// Projects the row down to what `viewer` may see.
    pub fn to_view(&self, viewer: Option<&User>) -> (v: BookingView)
        ensures
            is_projection(
                *self,
                match viewer {
                    Some(u) => Some(*u),
                    None => None,
                },
                v,
            ),
    {
        let b = &self.booking;
        let is_mine = match viewer {
            Some(u) => u.id == b.user_id,
            None => false,
        };
        let staff = match viewer {
            Some(u) => u.sees_guest_details(),
            None => false,
        };
        let full = is_mine || staff;
        let named = shows_booker(viewer.is_some(), staff, b.is_private, b.status.as_str());
        let party = full || named;
        let guest_name = if full {
            Some(
                match &self.guest_name {
                    Some(n) => n.clone(),
                    None => self.guest_email.clone(),
                },
            )
        } else {
            None
        };
        let guest_first_name = if named {
            Some(
                first_name(
                    match &self.guest_name {
                        Some(n) => Some(n.as_str()),
                        None => None,
                    },
                ),
            )
        } else {
            None
        };
        BookingView {
            id: b.id,
            check_in: b.check_in,
            check_out: b.check_out,
            status: b.status.clone(),
            guest_count_adults: keep(party, b.guest_count_adults),
            guest_count_kids: keep(party, b.guest_count_kids),
            is_mine,
            user_id: keep(full, b.user_id),
            guest_name,
            guest_email: if full {
                Some(self.guest_email.clone())
            } else {
                None
            },
            has_pets: keep(full, b.has_pets),
            other_requests: keep_text(full, &b.other_requests),
            denied_reason: keep_text(full, &b.denied_reason),
            approved_at: if full {
                b.approved_at
            } else {
                None
            },
            approved_by: keep_text(full, &b.approved_by),
            created_at: keep(full, b.created_at),
            checked_out: keep(full, self.checked_out),
            checkout_notes: keep_text(full, &self.checkout_notes),
            journal_id: if full {
                self.journal_id
            } else {
                None
            },
            journal_status: keep_text(full, &self.journal_status),
            is_private: keep(full, b.is_private),
            guest_first_name,
        }
    }
}

/// Someone who is neither the booker, nor staff, nor named by the calendar
/// learns nothing about who is coming: no name, no email, no party size.
pub proof fn law_withheld_from_strangers(row: BookingRow, viewer: Option<User>, v: BookingView)
    requires
        is_projection(row, viewer, v),
        !viewer_is_booker(viewer, row.booking),
        !viewer_is_staff(viewer),
        !names_booker(viewer, row.booking),
    ensures
        v.guest_name is None,
        v.guest_email is None,
        v.guest_first_name is None,
        v.guest_count_adults is None,
        v.guest_count_kids is None,
        v.user_id is None,
        v.other_requests is None,
        v.checkout_notes is None,
{
}

/// An anonymous visitor is never told who booked or how many are coming,
/// however public the booking.
pub proof fn law_anonymous_sees_no_one(row: BookingRow, v: BookingView)
    requires
        is_projection(row, None, v),
    ensures
        v.guest_name is None,
        v.guest_first_name is None,
        v.guest_count_adults is None,
        v.guest_count_kids is None,
        !v.is_mine,
{
}

/// A private booking, or one not yet approved, is never named to a signed-in
/// viewer who is not staff.
pub proof fn law_private_or_unapproved_never_named(signed_in: bool, is_private: bool, status: Seq<char>)
    requires
        is_private || status != "approved"@,
    ensures
        !shows_booker_spec(signed_in, false, is_private, status),
{
}

/// The staff bypass is a property of the viewer: staff are named every
/// booking, and it never widens what anyone else sees.
pub proof fn law_staff_bypass(signed_in: bool, is_private: bool, status: Seq<char>)
    ensures
        shows_booker_spec(signed_in, true, is_private, status),
        shows_booker_spec(signed_in, false, is_private, status) ==> (signed_in && !is_private
            && status == "approved"@),
{
}

/// The party breakdown is shown exactly to whoever may be told the name or
/// sees the booking in full.
pub proof fn law_party_travels_with_the_name(row: BookingRow, viewer: Option<User>, v: BookingView)
    requires
        is_projection(row, viewer, v),
    ensures
        (v.guest_count_adults is Some) == (v.guest_first_name is Some || v.guest_name is Some),
{
}

/// The SQL that reads booking rows joined to their guest, checkout and
/// journal entry.
pub fn select_rows() -> (s: &'static str)
    ensures
        s@ == "SELECT b.id, b.user_id, b.check_in, b.check_out, b.guest_count_adults, b.guest_count_kids, b.has_pets, b.other_requests, b.status, b.denied_reason, b.approved_at, b.approved_by, b.is_private, b.created_at, b.updated_at, u.full_name AS guest_name, u.email AS guest_email, (bc.id IS NOT NULL) AS checked_out, bc.notes AS checkout_notes, je.id AS journal_id, je.status AS journal_status\n         FROM bookings b\n         JOIN users u ON u.id = b.user_id\n         LEFT JOIN booking_checkouts bc ON bc.booking_id = b.id\n         LEFT JOIN journal_entries je ON je.booking_id = b.id"@,
{
    "SELECT b.id, b.user_id, b.check_in, b.check_out, b.guest_count_adults, b.guest_count_kids, b.has_pets, b.other_requests, b.status, b.denied_reason, b.approved_at, b.approved_by, b.is_private, b.created_at, b.updated_at, u.full_name AS guest_name, u.email AS guest_email, (bc.id IS NOT NULL) AS checked_out, bc.notes AS checkout_notes, je.id AS journal_id, je.status AS journal_status\n         FROM bookings b\n         JOIN users u ON u.id = b.user_id\n         LEFT JOIN booking_checkouts bc ON bc.booking_id = b.id\n         LEFT JOIN journal_entries je ON je.booking_id = b.id"
}

/// The default every path that omits the privacy choice falls back to: the
/// private one.
pub fn private_by_default() -> (b: bool)
    ensures
        b,
{
    true
}

/// A guest's own booking request.
#[derive(Debug, Clone, PartialEq)]
pub struct CreateBooking {
    pub check_in: Date,
    pub check_out: Date,
    pub guest_count_adults: i32,
    pub guest_count_kids: i32,
    pub has_pets: bool,
    pub other_requests: Option<String>,
    /// Whether to keep the booker's name off other family members' calendars.
    pub is_private: bool,
}

/// A booking an admin enters on a guest's behalf.
#[derive(Debug, Clone)]
pub struct AdminCreateBooking {
    pub email: String,
    /// Only used if this creates a new user.
    pub full_name: Option<String>,
    pub check_in: Date,
    pub check_out: Date,
    pub guest_count_adults: i32,
    pub guest_count_kids: i32,
    pub has_pets: bool,
    pub other_requests: Option<String>,
    pub is_private: bool,
}

impl From<AdminCreateBooking> for CreateBooking {
    /// The admin form feeds the very same request a guest's own would, field
    /// for field.
    fn from(admin: AdminCreateBooking) -> (c: CreateBooking) {
        CreateBooking {
            check_in: admin.check_in,
            check_out: admin.check_out,
            guest_count_adults: admin.guest_count_adults,
            guest_count_kids: admin.guest_count_kids,
            has_pets: admin.has_pets,
            other_requests: admin.other_requests,
            is_private: admin.is_private,
        }
    }
}

impl vstd::std_specs::convert::FromSpecImpl<AdminCreateBooking> for CreateBooking {
    open spec fn obeys_from_spec() -> bool {
        true
    }

    open spec fn from_spec(admin: AdminCreateBooking) -> CreateBooking {
        CreateBooking {
            check_in: admin.check_in,
            check_out: admin.check_out,
            guest_count_adults: admin.guest_count_adults,
            guest_count_kids: admin.guest_count_kids,
            has_pets: admin.has_pets,
            other_requests: admin.other_requests,
            is_private: admin.is_private,
        }
    }
}

/// The first rule a new request breaks, with its message, or `None` when it
/// meets them all: the guest must not be blocked, check-out must follow
/// check-in, check-in must not be in the past, and the party must be at
/// least one adult and no negative kids.
pub open spec fn new_booking_refusal(blocked: bool, body: CreateBooking, today: (int, int, int)) -> Option<(ErrorKind, Seq<char>)> {
    if blocked {
        Some((ErrorKind::Forbidden, "That account is blocked and can't have a stay booked. Unblock it first if this booking should go ahead."@))
    } else if !ymd_before(body.check_in.ymd(), body.check_out.ymd()) {
        Some((ErrorKind::BadRequest, "Check-out must be after check-in."@))
    } else if ymd_before(body.check_in.ymd(), today) {
        Some((ErrorKind::BadRequest, "Check-in can't be in the past."@))
    } else if body.guest_count_adults < 1 {
        Some((ErrorKind::BadRequest, "At least one adult is required."@))
    } else if body.guest_count_kids < 0 {
        Some((ErrorKind::BadRequest, "Kid count can't be negative."@))
    } else {
        None
    }
}

/// The checks a request must pass before anything is looked up or written.
pub fn validate_new_booking(user: &User, body: &CreateBooking, today: Date) -> (r: Result<(), AppError>)
    ensures
        match new_booking_refusal(user.blocked_at is Some, *body, today.ymd()) {
            Some(e) => r is Err && r->Err_0@ == e,
            None => r is Ok,
        },
{
    if user.is_blocked() {
        return Err(
            AppError::new(
                ErrorKind::Forbidden,
                "That account is blocked and can't have a stay booked. Unblock it first if this booking should go ahead.",
            ),
        );
    }
    if !body.check_in.is_before(&body.check_out) {
        return Err(AppError::new(ErrorKind::BadRequest, "Check-out must be after check-in."));
    }
    if body.check_in.is_before(&today) {
        return Err(AppError::new(ErrorKind::BadRequest, "Check-in can't be in the past."));
    }
    if body.guest_count_adults < 1 {
        return Err(AppError::new(ErrorKind::BadRequest, "At least one adult is required."));
    }
    if body.guest_count_kids < 0 {
        return Err(AppError::new(ErrorKind::BadRequest, "Kid count can't be negative."));
    }
    Ok(())
}

/// Calendar order on (year, month, day): the year decides first, then the
/// month, then the day.
pub open spec fn calendar_earlier(a: (int, int, int), b: (int, int, int)) -> bool {
    if a.0 != b.0 {
        a.0 < b.0
    } else if a.1 != b.1 {
        a.1 < b.1
    } else {
        a.2 < b.2
    }
}

/// A request from a guest who is not blocked is accepted exactly when its
/// check-out falls after its check-in and its check-in is not before today,
/// both in full calendar order, with at least one adult and no negative
/// kids; and "in the past" is given only for a check-in before today.
pub proof fn law_a_sound_request_is_accepted(body: CreateBooking, today: (int, int, int))
    ensures
        new_booking_refusal(true, body, today) matches Some((k, _)) && k == ErrorKind::Forbidden,
        new_booking_refusal(false, body, today) is None <==> (calendar_earlier(body.check_in.ymd(), body.check_out.ymd())
            && !calendar_earlier(body.check_in.ymd(), today) && body.guest_count_adults >= 1
            && body.guest_count_kids >= 0),
        new_booking_refusal(false, body, today) == Some((ErrorKind::BadRequest, "Check-in can't be in the past."@))
            ==> calendar_earlier(body.check_in.ymd(), today),
        calendar_earlier(body.check_in.ymd(), today) && calendar_earlier(body.check_in.ymd(), body.check_out.ymd())
            ==> new_booking_refusal(false, body, today) == Some((ErrorKind::BadRequest, "Check-in can't be in the past."@)),
{
    reveal_strlit("Check-out must be after check-in.");
    reveal_strlit("Check-in can't be in the past.");
    reveal_strlit("At least one adult is required.");
    reveal_strlit("Kid count can't be negative.");
    assert("Check-out must be after check-in."@.len() != "Check-in can't be in the past."@.len());
    assert("At least one adult is required."@.len() != "Check-in can't be in the past."@.len());
    assert("Kid count can't be negative."@.len() != "Check-in can't be in the past."@.len());
}

/// How a stay's dates read in messages: "Oct 1 – Oct 5, 2026".
pub open spec fn stay_range_text(check_in: Date, check_out: Date) -> Seq<char> {
    crate::dates::chrono_date_text(check_in.y(), check_in.m(), check_in.d(), "%b %-d"@) + " – "@
        + crate::dates::chrono_date_text(check_out.y(), check_out.m(), check_out.d(), "%b %-d, %Y"@)
}

pub fn stay_range(check_in: Date, check_out: Date) -> (s: String)
    ensures
        s@ == stay_range_text(check_in, check_out),
{
    let a = check_in.format("%b %-d");
    let b = check_out.format("%b %-d, %Y");
    proof {
        reveal_strlit("%b %-d");
        reveal_strlit("%b %-d, %Y");
    }
    let mut s = a;
    s.append(" – ");
    s.append(b.as_str());
    s
}

/// The refusal for a request that touches a blackout, naming its dates and
/// (when one is given and not blank) its reason.
pub fn blackout_conflict(start: Date, end: Date, reason: Option<&str>) -> (e: AppError)
    ensures
        e@ == (
            ErrorKind::Conflict,
            "The camp is unavailable "@ + stay_range_text(start, end) + match reason {
                Some(r) => if crate::text::trim_spec(r@).len() > 0 {
                    " ("@ + r@ + ")"@
                } else {
                    Seq::empty()
                },
                None => Seq::empty(),
            } + ". Please choose different dates."@,
        ),
{
    let mut m = String::from_str("The camp is unavailable ");
    let range = stay_range(start, end);
    m.append(range.as_str());
    match reason {
        Some(r) => {
            if trim(r).unicode_len() > 0 {
                m.append(" (");
                m.append(r);
                m.append(")");
            }
        },
        None => {},
    }
    m.append(". Please choose different dates.");
    AppError::with_message(ErrorKind::Conflict, m)
}

/// A blackout must not end before it starts.
pub fn validate_blackout_range(start: Date, end: Date) -> (r: Result<(), AppError>)
    ensures
        r is Ok <==> !ymd_before(end.ymd(), start.ymd()),
        r is Err ==> r->Err_0@ == (ErrorKind::BadRequest, "End date must be on or after the start date."@),
{
    if end.is_before(&start) {
        return Err(AppError::new(ErrorKind::BadRequest, "End date must be on or after the start date."));
    }
    Ok(())
}

/// What a proposed stay would mean for the beds.
#[derive(Debug, Clone, Copy, PartialEq, Eq, Structural)]
pub struct Capacity {
    /// Adults already approved for any night in the requested range.
    pub approved_adults: i64,
    /// Adults once this request is counted.
    pub total_adults: i64,
    pub limit: i64,
    pub over_capacity: bool,
}

impl Capacity {
    /// The capacity picture for `adults` more on top of `already`.
    pub fn assess(already: i64, adults: i32, limit: i64) -> (c: Capacity)
        requires
            i64::MIN <= already + adults <= i64::MAX,
        ensures
            c.approved_adults == already,
            c.total_adults == already + adults,
            c.limit == limit,
            c.over_capacity == (already + adults > limit),
    {
        let total = already + adults as i64;
        Capacity { approved_adults: already, total_adults: total, limit, over_capacity: total > limit }
    }
}

pub open spec fn overlap_warning() -> Seq<char> {
    "These dates overlap with an existing booking. The owner will review both requests."@
}

pub open spec fn capacity_warning(c: Capacity) -> Seq<char> {
    "That would put "@ + signed_decimal(c.total_adults as int) + " adults at the camp, which sleeps "@
        + signed_decimal(c.limit as int) + ". The owner will take a look."@
}

/// The advisory sentences for a stay: never a veto, only something for the
/// submitter to read.
pub fn stay_warnings(overlaps: i64, capacity: &Capacity) -> (w: Vec<String>)
    ensures
        w@.len() == (if overlaps > 0 { 1int } else { 0 }) + (if capacity.over_capacity { 1int } else { 0 }),
        overlaps > 0 ==> w@[0]@ == overlap_warning(),
        capacity.over_capacity ==> w@[w@.len() - 1]@ == capacity_warning(*capacity),
{
    let mut w: Vec<String> = Vec::new();
    if overlaps > 0 {
        w.push(String::from_str("These dates overlap with an existing booking. The owner will review both requests."));
    }
    if capacity.over_capacity {
        let mut s = String::from_str("That would put ");
        push_signed(&mut s, capacity.total_adults);
        s.append(" adults at the camp, which sleeps ");
        push_signed(&mut s, capacity.limit);
        s.append(". The owner will take a look.");
        w.push(s);
    }
    w
}

/// The sentences joined by single spaces.
pub open spec fn joined(w: Seq<Seq<char>>) -> Seq<char>
    decreases w.len(),
{
    if w.len() == 0 {
        Seq::empty()
    } else if w.len() == 1 {
        w[0]
    } else {
        joined(w.drop_last()) + " "@ + w.last()
    }
}

/// The warning shown on submit: absent when there is nothing to say.
pub fn warning_text(w: &Vec<String>) -> (r: Option<String>)
    ensures
        match r {
            Some(s) => w@.len() > 0 && s@ == joined(w@.map_values(|x: String| x@)),
            None => w@.len() == 0,
        },
{
    if w.len() == 0 {
        return None;
    }
    let mut s = w[0].clone();
    let mut i: usize = 1;
    while i < w.len()
        invariant
            1 <= i <= w@.len(),
            s@ == joined(w@.subrange(0, i as int).map_values(|x: String| x@)),
        decreases w@.len() - i,
    {
        proof {
            let a = w@.subrange(0, i + 1).map_values(|x: String| x@);
            assert(a.drop_last() =~= w@.subrange(0, i as int).map_values(|x: String| x@));
        }
        s.append(" ");
        s.append(w[i].as_str());
        i = i + 1;
    }
    proof {
        assert(w@.subrange(0, w@.len() as int) =~= w@);
    }
    Some(s)
}

/// A guest count the database constraints accept: at least one adult, no
/// negative kids.
pub fn validate_guest_counts(adults: i32, kids: i32) -> (r: Result<(), AppError>)
    ensures
        r is Ok <==> (adults >= 1 && kids >= 0),
        adults < 1 ==> r is Err && r->Err_0@ == (ErrorKind::BadRequest, "A booking needs at least one adult."@),
        adults >= 1 && kids < 0 ==> r is Err && r->Err_0@ == (ErrorKind::BadRequest, "Kids can't be negative."@),
{
    if adults < 1 {
        return Err(AppError::new(ErrorKind::BadRequest, "A booking needs at least one adult."));
    }
    if kids < 0 {
        return Err(AppError::new(ErrorKind::BadRequest, "Kids can't be negative."));
    }
    Ok(())
}

/// The one date rule an edit keeps: check-out strictly after check-in. An
/// edit may move a stay that is already in the past.
pub fn validate_stay_dates(check_in: Date, check_out: Date) -> (r: Result<(), AppError>)
    ensures
        r is Ok <==> ymd_before(check_in.ymd(), check_out.ymd()),
        r is Err ==> r->Err_0@ == (ErrorKind::BadRequest, "Check-out must be after check-in."@),
{
    if !check_in.is_before(&check_out) {
        return Err(AppError::new(ErrorKind::BadRequest, "Check-out must be after check-in."));
    }
    Ok(())
}

/// "2 adults", "1 adult and 1 kid", "3 adults and 2 kids": kids omitted
/// when there are none.
pub open spec fn guest_count_phrase_spec(adults: int, kids: int) -> Seq<char> {
    let a = signed_decimal(adults) + if adults == 1 {
        " adult"@
    } else {
        " adults"@
    };
    if kids == 0 {
        a
    } else if kids == 1 {
        a + " and 1 kid"@
    } else {
        a + " and "@ + signed_decimal(kids) + " kids"@
    }
}

pub fn guest_count_phrase(adults: i32, kids: i32) -> (s: String)
    ensures
        s@ == guest_count_phrase_spec(adults as int, kids as int),
{
    let mut s = String::new();
    push_signed(&mut s, adults as i64);
    if adults == 1 {
        s.append(" adult");
    } else {
        s.append(" adults");
    }
    if kids == 0 {
    } else if kids == 1 {
        s.append(" and 1 kid");
    } else {
        s.append(" and ");
        push_signed(&mut s, kids as i64);
        s.append(" kids");
    }
    proof {
        assert(Seq::<char>::empty() + signed_decimal(adults as int) =~= signed_decimal(adults as int));
    }
    s
}

/// Whether the numbers actually moved.
pub fn guest_counts_changed(before: (i32, i32), after: (i32, i32)) -> (b: bool)
    ensures
        b == (before != after),
{
    before.0 != after.0 || before.1 != after.1
}

/// Whether the dates actually moved.
pub fn dates_changed(before: (Date, Date), after: (Date, Date)) -> (b: bool)
    ensures
        b == (before.0.ymd() != after.0.ymd() || before.1.ymd() != after.1.ymd()),
{
    before.0.year() != after.0.year() || before.0.month() != after.0.month() || before.0.day()
        != after.0.day() || before.1.year() != after.1.year() || before.1.month() != after.1.month()
        || before.1.day() != after.1.day()
}

/// What an admin's edit actually moved: one value, so one notification.
#[derive(Debug, Clone, Copy, PartialEq)]
pub struct BookingEdit {
    /// The dates as they were, if they moved.
    pub dates_from: Option<(Date, Date)>,
    /// The counts as they were, if they moved.
    pub counts_from: Option<(i32, i32)>,
}

/// The edit that takes a booking from `before` to `after`.
pub open spec fn edit_between(before: (Date, Date, i32, i32), after: (Date, Date, i32, i32)) -> BookingEdit {
    BookingEdit {
        dates_from: if before.0.ymd() != after.0.ymd() || before.1.ymd() != after.1.ymd() {
            Some((before.0, before.1))
        } else {
            None
        },
        counts_from: if before.2 != after.2 || before.3 != after.3 {
            Some((before.2, before.3))
        } else {
            None
        },
    }
}

impl BookingEdit {
    /// Compares before and after, keeping only what differs.
    pub fn between(before: (Date, Date, i32, i32), after: (Date, Date, i32, i32)) -> (e: BookingEdit)
        ensures
            e == edit_between(before, after),
    {
        let (bi, bo, ba, bk) = before;
        let (ai, ao, aa, ak) = after;
        BookingEdit {
            dates_from: if dates_changed((bi, bo), (ai, ao)) {
                Some((bi, bo))
            } else {
                None
            },
            counts_from: if guest_counts_changed((ba, bk), (aa, ak)) {
                Some((ba, bk))
            } else {
                None
            },
        }
    }

    /// Whether anything moved at all.
    pub fn is_empty(&self) -> (b: bool)
        ensures
            b == (self.dates_from is None && self.counts_from is None),
    {
        self.dates_from.is_none() && self.counts_from.is_none()
    }
}

/// Re-saving a booking exactly as it was moves nothing, so nobody is told
/// anything; and any edit that moves something is reported, whole, in one
/// value.
pub proof fn law_edit_reports_exactly_what_moved(before: (Date, Date, i32, i32), after: (Date, Date, i32, i32))
    ensures
        before == after ==> edit_between(before, after).dates_from is None && edit_between(
            before,
            after,
        ).counts_from is None,
        (edit_between(before, after).dates_from is None && edit_between(before, after).counts_from is None)
            ==> (before.0.ymd() == after.0.ymd() && before.1.ymd() == after.1.ymd() && before.2 == after.2
            && before.3 == after.3),
{
}

/// "That isn't your booking." for anyone but its guest or an admin.
pub fn require_owner_or_admin(booking: &Booking, user: &User) -> (r: Result<(), AppError>)
    ensures
        r is Ok <==> (booking.user_id == user.id || user.admin()),
        r is Err ==> r->Err_0@ == (ErrorKind::Forbidden, "That isn't your booking."@),
{
    if booking.user_id != user.id && !user.is_admin() {
        return Err(AppError::new(ErrorKind::Forbidden, "That isn't your booking."));
    }
    Ok(())
}

/// The refusal for acting on a booking that has already been decided.
pub open spec fn already_text(status: Seq<char>) -> Seq<char> {
    "This booking is already "@ + status + "."@
}

/// Only a pending request can be approved or denied.
pub fn require_pending(status: &str) -> (r: Result<(), AppError>)
    ensures
        r is Ok <==> status@ == "pending"@,
        r is Err ==> r->Err_0@ == (ErrorKind::Conflict, already_text(status@)),
{
    if !str_eq(status, "pending") {
        let m = concat3("This booking is already ", status, ".");
        return Err(AppError::with_message(ErrorKind::Conflict, m));
    }
    Ok(())
}

/// Microseconds since the epoch at midnight UTC on `d`.
pub open spec fn day_start_micros(d: Date) -> int {
    days_from_civil(d.y(), d.m(), d.d()) * (MICROS_PER_DAY as int)
}

/// The refusals a cancellation can meet, in order: someone else's booking,
/// one already cancelled or denied, and a confirmed stay inside the late
/// window for anyone but an admin.
pub open spec fn cancel_refusal(b: Booking, user: User, now_micros: int) -> Option<(ErrorKind, Seq<char>)> {
    if b.user_id != user.id && !user.admin() {
        Some((ErrorKind::Forbidden, "That isn't your booking."@))
    } else if b.status@ == "cancelled"@ || b.status@ == "denied"@ {
        Some((ErrorKind::Conflict, already_text(b.status@)))
    } else if b.status@ == "approved"@ && !user.admin() && day_start_micros(b.check_in) - now_micros < (
    LATE_CANCEL_HOURS as int) * (MICROS_PER_HOUR as int) {
        Some((ErrorKind::Forbidden, "Confirmed stays can't be cancelled within 48 hours of check-in. Message the owner and they'll sort it out."@))
    } else {
        None
    }
}

/// Whether `user` may cancel `b` at `now_micros`.
pub fn check_cancel(b: &Booking, user: &User, now_micros: i64) -> (r: Result<(), AppError>)
    ensures
        match cancel_refusal(*b, *user, now_micros as int) {
            Some(e) => r is Err && r->Err_0@ == e,
            None => r is Ok,
        },
{
    require_owner_or_admin(b, user)?;
    if str_eq(b.status.as_str(), "cancelled") || str_eq(b.status.as_str(), "denied") {
        let m = concat3("This booking is already ", b.status.as_str(), ".");
        return Err(AppError::with_message(ErrorKind::Conflict, m));
    }
    if str_eq(b.status.as_str(), "approved") && !user.is_admin() {
        let start: i128 = b.check_in.days_since_epoch() as i128 * MICROS_PER_DAY;
        let until: i128 = start - now_micros as i128;
        if until < LATE_CANCEL_HOURS as i128 * MICROS_PER_HOUR {
            return Err(
                AppError::new(
                    ErrorKind::Forbidden,
                    "Confirmed stays can't be cancelled within 48 hours of check-in. Message the owner and they'll sort it out.",
                ),
            );
        }
    }
    Ok(())
}

/// The late-cancellation refusal is only ever given for a confirmed
/// ("approved") stay: the booker, or an admin, may withdraw any booking that
/// is not cancelled, denied or approved, at any moment.
pub proof fn law_only_confirmed_stays_are_held_to_the_late_window(b: Booking, user: User, now_micros: int)
    ensures
        (b.user_id == user.id || user.admin()) && b.status@ != "cancelled"@ && b.status@ != "denied"@
            && b.status@ != "approved"@ ==> cancel_refusal(b, user, now_micros) is None,
        cancel_refusal(b, user, now_micros) == Some((ErrorKind::Forbidden, "Confirmed stays can't be cancelled within 48 hours of check-in. Message the owner and they'll sort it out."@))
            ==> b.status@ == "approved"@ && !user.admin(),
{
    reveal_strlit("That isn't your booking.");
    reveal_strlit("Confirmed stays can't be cancelled within 48 hours of check-in. Message the owner and they'll sort it out.");
    assert("That isn't your booking."@.len() != "Confirmed stays can't be cancelled within 48 hours of check-in. Message the owner and they'll sort it out."@.len());
}

/// Who may cancel, and when: only the booker or an admin; never a booking
/// already cancelled or denied; an admin at any moment otherwise; and the
/// booker of a confirmed stay only while at least 48 hours (172,800,000,000
/// microseconds) remain before midnight UTC on the check-in day.
pub proof fn law_who_may_cancel_and_when(b: Booking, user: User, now_micros: int)
    ensures
        b.user_id != user.id && !user.admin() ==> cancel_refusal(b, user, now_micros) == Some(
            (ErrorKind::Forbidden, "That isn't your booking."@),
        ),
        (b.status@ == "cancelled"@ || b.status@ == "denied"@) ==> cancel_refusal(b, user, now_micros) is Some,
        user.admin() && b.status@ != "cancelled"@ && b.status@ != "denied"@ ==> cancel_refusal(
            b,
            user,
            now_micros,
        ) is None,
        b.user_id == user.id && !user.admin() && b.status@ == "approved"@ ==> (cancel_refusal(
            b,
            user,
            now_micros,
        ) is None <==> day_start_micros(b.check_in) - now_micros >= 172_800_000_000),
{
    reveal_strlit("approved");
    reveal_strlit("cancelled");
    reveal_strlit("denied");
    assert("approved"@.len() != "cancelled"@.len() && "approved"@.len() != "denied"@.len());
}

/// Only cancelling a stay that had been approved notifies the owner.
pub fn should_notify_owner_of_cancellation(previous_status: &str) -> (b: bool)
    ensures
        b == (previous_status@ == "approved"@),
{
    str_eq(previous_status, "approved")
}

/// Approved is the one status a hard delete refuses.
pub open spec fn deletable_status(status: Seq<char>) -> bool {
    status == "pending"@ || status == "denied"@ || status == "cancelled"@
}

pub fn is_deletable_status(status: &str) -> (b: bool)
    ensures
        b == deletable_status(status@),
{
    str_eq(status, "pending") || str_eq(status, "denied") || str_eq(status, "cancelled")
}

/// The refusal for deleting a confirmed stay.
pub fn require_deletable_status(status: &str) -> (r: Result<(), AppError>)
    ensures
        r is Ok <==> deletable_status(status@),
        r is Err ==> r->Err_0@ == (
            ErrorKind::Conflict,
            "Approved bookings can't be deleted directly — cancel it first if it needs to be removed."@,
        ),
{
    if !is_deletable_status(status) {
        return Err(
            AppError::new(
                ErrorKind::Conflict,
                "Approved bookings can't be deleted directly — cancel it first if it needs to be removed.",
            ),
        );
    }
    Ok(())
}

/// A confirmed stay is never erased directly, and cancelling it is what
/// makes it deletable.
pub proof fn law_confirmed_history_is_kept()
    ensures
        !deletable_status("approved"@),
        deletable_status("cancelled"@),
{
    reveal_strlit("approved");
    reveal_strlit("cancelled");
    reveal_strlit("pending");
    reveal_strlit("denied");
    assert("approved"@.len() == 8);
    assert("pending"@.len() == 7);
    assert("denied"@.len() == 6);
    assert("cancelled"@.len() == 9);
}

/// What a delete took with it.
#[derive(Debug, Clone, Copy, PartialEq, Eq, Structural)]
pub struct DeleteSummary {
    pub deleted: bool,
    /// Whether a journal entry was removed alongside the booking.
    pub journal_entry: bool,
    /// Whether a checkout record was removed alongside it.
    pub checkout: bool,
}

impl DeleteSummary {
    /// The summary after deleting `row`.
    pub fn of(row: &BookingRow) -> (s: DeleteSummary)
        ensures
            s.deleted,
            s.journal_entry == row.journal_id is Some,
            s.checkout == row.checked_out,
    {
        DeleteSummary { deleted: true, journal_entry: row.journal_id.is_some(), checkout: row.checked_out }
    }
}

/// The in-app note the admin gets about a new request:
/// "Jean requested Oct 1 – Oct 5, 2026."
pub fn request_notice(guest_name: &str, b: &Booking) -> (s: String)
    ensures
        s@ == guest_name@ + " requested "@ + stay_range_text(b.check_in, b.check_out) + "."@,
{
    let mut s = String::from_str(guest_name);
    s.append(" requested ");
    let r = stay_range(b.check_in, b.check_out);
    s.append(r.as_str());
    s.append(".");
    s
}

/// The in-app note a guest gets when their stay is approved.
pub fn approved_notice(b: &Booking) -> (s: String)
    ensures
        s@ == "Your stay "@ + stay_range_text(b.check_in, b.check_out)
            + " has been approved. See you at the camp!"@,
{
    let mut s = String::from_str("Your stay ");
    let r = stay_range(b.check_in, b.check_out);
    s.append(r.as_str());
    s.append(" has been approved. See you at the camp!");
    s
}

/// The in-app note a guest gets when their request is denied: the reason
/// when one was given, else an invitation to pick other dates.
pub fn denied_notice(b: &Booking, reason: Option<&str>) -> (s: String)
    ensures
        s@ == "Your request for "@ + stay_range_text(b.check_in, b.check_out) + " wasn't approved. "@
            + match reason {
            Some(r) => r@,
            None => "Feel free to pick other dates."@,
        },
{
    let mut s = String::from_str("Your request for ");
    let r = stay_range(b.check_in, b.check_out);
    s.append(r.as_str());
    s.append(" wasn't approved. ");
    match reason {
        Some(x) => s.append(x),
        None => s.append("Feel free to pick other dates."),
    }
    s
}

/// A denial reason as stored: trimmed, and absent when blank.
pub fn clean_reason(reason: Option<&str>) -> (r: Option<&str>)
    ensures
        match r {
            Some(x) => reason is Some && crate::text::trim_spec(reason->0@).len() > 0 && x@ == crate::text::trim_spec(reason->0@),
            None => reason is None || crate::text::trim_spec(reason->0@).len() == 0,
        },
{
    match reason {
        Some(x) => {
            let t = trim(x);
            if t.unicode_len() == 0 {
                None
            } else {
                Some(t)
            }
        },
        None => None,
    }
}

/// Why a one-click link cannot be used, as the heading and detail of the
/// page shown instead.
pub open spec fn token_refusal(found: bool, expired: bool, status: Option<Seq<char>>) -> Option<(Seq<char>, Seq<char>)> {
    if !found {
        Some(("This link is no longer valid"@, "It may have already been used, or the booking was handled in the app."@))
    } else if expired {
        Some(("This link has expired"@, "Approval links are good for 48 hours. Please handle this booking in the app."@))
    } else {
        match status {
            Some(st) => if st == "pending"@ {
                None
            } else {
                Some(("Already "@ + st, "This booking has already been handled — no further action needed."@))
            },
            None => Some(("This link is no longer valid"@, "The booking could not be found."@)),
        }
    }
}

/// A one-click link acts at most once and never late: once the request has
/// been decided (approved, denied or cancelled) or the link has expired,
/// every further use is refused.
pub proof fn law_a_link_acts_once_and_in_time(found: bool, expired: bool, status: Seq<char>)
    ensures
        status != "pending"@ ==> token_refusal(found, expired, Some(status)) is Some,
        expired ==> token_refusal(found, expired, Some(status)) is Some,
        (found && !expired && status == "pending"@) <==> token_refusal(found, expired, Some(status)) is None,
{
}

/// Whether a one-click link may act: it must name a booking, be unexpired
/// (`expires_at` not before `now`), and the booking must still be pending.
/// The refusal is the page the owner sees.
pub fn check_token(found: bool, expires_at: Option<i64>, now: i64, status: Option<&str>) -> (r: Result<(), String>)
    ensures
        match token_refusal(
            found,
            expires_at matches Some(e) && e < now,
            match status {
                Some(st) => Some(st@),
                None => None,
            },
        ) {
            Some((h, d)) => r matches Err(page) && page@ == crate::email_templates::action_result_page_spec(h, d, false),
            None => r is Ok,
        },
{
    if !found {
        return Err(crate::email_templates::action_result_page(
            "This link is no longer valid",
            "It may have already been used, or the booking was handled in the app.",
            false,
        ));
    }
    let expired = match expires_at {
        Some(e) => e < now,
        None => false,
    };
    if expired {
        return Err(crate::email_templates::action_result_page(
            "This link has expired",
            "Approval links are good for 48 hours. Please handle this booking in the app.",
            false,
        ));
    }
    match status {
        Some(st) => {
            if str_eq(st, "pending") {
                Ok(())
            } else {
                let heading = crate::text::concat2("Already ", st);
                Err(crate::email_templates::action_result_page(
                    heading.as_str(),
                    "This booking has already been handled — no further action needed.",
                    false,
                ))
            }
        },
        None => Err(crate::email_templates::action_result_page(
            "This link is no longer valid",
            "The booking could not be found.",
            false,
        )),
    }
}

/// The page after a one-click action succeeded, naming the guest (escaped).
pub fn action_done_page(approved: bool, guest: &str) -> (page: String)
    ensures
        page@ == crate::email_templates::action_result_page_spec(
            if approved {
                "Booking approved!"@
            } else {
                "Booking denied"@
            },
            crate::email_templates::esc_spec(guest@) + " has been notified by email."@,
            true,
        ),
{
    let eg = crate::email_templates::esc(guest);
    let detail = crate::text::concat2(eg.as_str(), " has been notified by email.");
    crate::email_templates::action_result_page(
        if approved {
            "Booking approved!"
        } else {
            "Booking denied"
        },
        detail.as_str(),
        true,
    )
}

/// The page after a one-click action failed to save.
pub fn action_failed_page() -> (page: String)
    ensures
        page@ == crate::email_templates::action_result_page_spec(
            "Something went wrong"@,
            "The booking wasn't updated. Please try again."@,
            false,
        ),
{
    crate::email_templates::action_result_page(
        "Something went wrong",
        "The booking wasn't updated. Please try again.",
        false,
    )
}

/// Who a row's guest is in messages: their name, else their email.
pub fn guest_label(row: &BookingRow) -> (s: String)
    ensures
        s@ == match row.guest_name {
            Some(n) => n@,
            None => row.guest_email@,
        },
{
    match &row.guest_name {
        Some(n) => n.clone(),
        None => row.guest_email.clone(),
    }
}

/// A lowercase hexadecimal digit.
pub open spec fn is_lower_hex(c: char) -> bool {
    ('0' <= c <= '9') || ('a' <= c <= 'f')
}

/// The lowercase hex digit for a value below sixteen.
pub open spec fn hex_digit(n: int) -> char {
    if n < 10 {
        (48 + n) as char
    } else {
        (87 + n) as char
    }
}

/// Bytes as lowercase hex, two digits per byte, high nibble first.
pub open spec fn hex_of(bytes: Seq<u8>) -> Seq<char>
    decreases bytes.len(),
{
    if bytes.len() == 0 {
        Seq::empty()
    } else {
        hex_of(bytes.drop_last()) + seq![hex_digit(bytes.last() as int / 16), hex_digit(bytes.last() as int % 16)]
    }
}

fn hex_digit_of(n: u8) -> (c: char)
    requires
        n < 16,
    ensures
        c == hex_digit(n as int),
        is_lower_hex(c),
{
    if n < 10 {
        (48u8 + n) as char
    } else {
        (87u8 + n) as char
    }
}

proof fn lemma_hex_of_is_hex(bytes: Seq<u8>)
    ensures
        hex_of(bytes).len() == 2 * bytes.len(),
        forall|i: int| 0 <= i < hex_of(bytes).len() ==> is_lower_hex(#[trigger] hex_of(bytes)[i]),
    decreases bytes.len(),
{
    if bytes.len() > 0 {
        lemma_hex_of_is_hex(bytes.drop_last());
        let b = bytes.last();
        assert(is_lower_hex(hex_digit(b as int / 16)));
        assert(is_lower_hex(hex_digit(b as int % 16)));
    }
}

/// `bytes` in lowercase hex.
pub fn hex_encode(bytes: &Vec<u8>) -> (s: String)
    ensures
        s@ == hex_of(bytes@),
{
    let mut s = String::new();
    let mut i: usize = 0;
    while i < bytes.len()
        invariant
            i <= bytes@.len(),
            s@ == hex_of(bytes@.subrange(0, i as int)),
        decreases bytes@.len() - i,
    {
        let b = bytes[i];
        s.push(hex_digit_of(b / 16));
        s.push(hex_digit_of(b % 16));
        proof {
            assert(bytes@.subrange(0, i + 1).drop_last() =~= bytes@.subrange(0, i as int));
        }
        i = i + 1;
    }
    proof {
        assert(bytes@.subrange(0, bytes@.len() as int) =~= bytes@);
    }
    s
}

/// Calls rand's `random::<[u8; 32]>()` (the thread-local generator) and
/// copies the array into a vector: 32 bytes, which bytes being random.
#[verifier::external_body]
fn random_token_bytes() -> (b: Vec<u8>)
    ensures
        b@.len() == 32,
{
    rand::random::<[u8; 32]>().to_vec()
}

/// 256 bits of randomness, hex encoded: the single-use credential behind the
/// owner's one-click buttons.
pub fn new_token() -> (t: String)
    ensures
        t@.len() == 64,
        forall|i: int| 0 <= i < 64 ==> is_lower_hex(#[trigger] t@[i]),
{
    let b = random_token_bytes();
    let t = hex_encode(&b);
    proof {
        lemma_hex_of_is_hex(b@);
    }
    t
}

} // verus!

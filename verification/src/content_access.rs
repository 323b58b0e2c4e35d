//! Which roles may see which gated sections. Two independent ways past a
//! section's gate, either sufficient: holding one of its allowed roles, or
//! having an ever-approved booking when the section says bookings count.

use crate::error::{AppError, ErrorKind};
use crate::text::{concat3, str_eq};
use vstd::prelude::*;

verus! {

/// The shared photo album link.
pub const GUEST_PHOTOS: &'static str = "guest_photos";

/// Writing a journal entry: listed, but its rule turns on a stay.
pub const JOURNAL_ENTRY: &'static str = "journal_entry";

/// Arrival details: listed, but its rule turns on a stay.
pub const CHECKIN_INFO: &'static str = "checkin_info";

/// One row of the `content_access` table; `updated_at` is microseconds since
/// the Unix epoch.
#[derive(Debug, Clone)]
pub struct SectionAccess {
    pub section_key: String,
    pub label: String,
    pub description: String,
    pub allowed_roles: Vec<String>,
    pub approved_booking_grants: bool,
    pub configurable: bool,
    pub sort_order: i32,
    pub updated_at: i64,
}

/// The roles of a section, as text.
pub open spec fn roles_of(section: &SectionAccess) -> Seq<Seq<char>> {
    section.allowed_roles@.map_values(|r: String| r@)
}

/// Admission: a role on the list, or an approved booking where bookings count.
pub open spec fn grants_spec(section: &SectionAccess, role: Seq<char>, has_approved_booking: bool) -> bool {
    roles_of(section).contains(role) || (section.approved_booking_grants && has_approved_booking)
}

/// Whether a viewer with `role` (and, or not, an approved booking) may see
/// the section.
pub fn grants(section: &SectionAccess, role: &str, has_approved_booking: bool) -> (b: bool)
    ensures
        b == grants_spec(section, role@, has_approved_booking),
{
    let mut i: usize = 0;
    while i < section.allowed_roles.len()
        invariant
            i <= section.allowed_roles@.len(),
            forall|j: int| 0 <= j < i ==> section.allowed_roles@[j]@ != role@,
        decreases section.allowed_roles@.len() - i,
    {
        if str_eq(section.allowed_roles[i].as_str(), role) {
            assert(roles_of(section)[i as int] == role@);
            return true;
        }
        i = i + 1;
    }
    proof {
        if roles_of(section).contains(role@) {
            let j = choose|j: int| 0 <= j < roles_of(section).len() && roles_of(section)[j] == role@;
            assert(section.allowed_roles@[j]@ == role@);
        }
    }
    section.approved_booking_grants && has_approved_booking
}

/// Whether the viewer's role alone settles admission, so the booking lookup
/// can be skipped: `Some(true)` when the role is on the list, `Some(false)`
/// when it is not and bookings do not count, `None` when the answer turns on
/// whether the viewer has an approved booking.
pub fn decided_by_role(section: &SectionAccess, role: &str) -> (r: Option<bool>)
    ensures
        r == if roles_of(section).contains(role@) {
            Some(true)
        } else if !section.approved_booking_grants {
            Some(false)
        } else {
            None::<bool>
        },
        r matches Some(b) ==> forall|h: bool| b == grants_spec(section, role@, h),
{
    if grants(section, role, false) {
        proof {
            assert(roles_of(section).contains(role@));
        }
        Some(true)
    } else if !section.approved_booking_grants {
        Some(false)
    } else {
        None
    }
}

/// Every role a section may be opened to.
pub open spec fn is_assignable_role(role: Seq<char>) -> bool {
    role == "guest"@ || role == "user"@ || role == "admin"@
}

/// Whether `role` may be stored on a section or a user.
pub fn is_assignable(role: &str) -> (b: bool)
    ensures
        b == is_assignable_role(role@),
{
    str_eq(role, "guest") || str_eq(role, "user") || str_eq(role, "admin")
}

/// Refuses a role list holding anything but a known role, naming the first
/// unknown one.
pub fn validate_roles(roles: &[String]) -> (r: Result<(), AppError>)
    ensures
        r is Ok <==> (forall|i: int| 0 <= i < roles@.len() ==> is_assignable_role(#[trigger] roles@[i]@)),
        r is Err ==> exists|i: int|
            0 <= i < roles@.len() && !is_assignable_role(#[trigger] roles@[i]@) && (forall|j: int|
                0 <= j < i ==> is_assignable_role(#[trigger] roles@[j]@)) && r->Err_0@ == (
                ErrorKind::BadRequest,
                "'"@ + roles@[i]@ + "' is not a role. Valid roles: guest, user, admin."@,
            ),
{
    let mut i: usize = 0;
    while i < roles.len()
        invariant
            i <= roles@.len(),
            forall|j: int| 0 <= j < i ==> is_assignable_role(#[trigger] roles@[j]@),
        decreases roles@.len() - i,
    {
        if !is_assignable(roles[i].as_str()) {
            let m = concat3("'", roles[i].as_str(), "' is not a role. Valid roles: guest, user, admin.");
            return Err(AppError::with_message(ErrorKind::BadRequest, m));
        }
        i = i + 1;
    }
    Ok(())
}

/// Refuses to edit a section whose rule turns on a booking rather than a role.
pub fn require_configurable(section: &SectionAccess) -> (r: Result<(), AppError>)
    ensures
        r is Ok <==> section.configurable,
        r is Err ==> r->Err_0@ == (
            ErrorKind::Conflict,
            "\""@ + section.label@ + "\" isn't role-configurable — access to it depends on a booking, not on who someone is."@,
        ),
{
    if !section.configurable {
        let m = concat3(
            "\"",
            section.label.as_str(),
            "\" isn't role-configurable — access to it depends on a booking, not on who someone is.",
        );
        return Err(AppError::with_message(ErrorKind::Conflict, m));
    }
    Ok(())
}

/// Role and booking history are alternatives: either one admits, and a
/// section open to no role and not counting bookings admits nobody.
pub proof fn law_either_route_admits(section: &SectionAccess, role: Seq<char>, has_booking: bool)
    ensures
        roles_of(section).contains(role) ==> grants_spec(section, role, has_booking),
        section.approved_booking_grants && has_booking ==> grants_spec(section, role, has_booking),
        section.allowed_roles@.len() == 0 && !section.approved_booking_grants ==> !grants_spec(
            section,
            role,
            has_booking,
        ),
{
}

} // verus!

//! Ending a stay: which bookings may be checked out, and what a submitted
//! checkout may carry.

use crate::dates::{Date, ymd_before};
use crate::error::{AppError, ErrorKind};
use crate::text::str_eq;
use vstd::prelude::*;

verus! {

/// A booking may be checked out once it is approved, its check-out day has
/// come, and it has not been checked out already.
pub open spec fn checkout_eligible(status: Seq<char>, check_out: (int, int, int), today: (int, int, int), already: bool) -> bool {
    status == "approved"@ && !ymd_before(today, check_out) && !already
}

pub fn is_checkout_eligible(status: &str, check_out: Date, today: Date, already_checked_out: bool) -> (b: bool)
    ensures
        b == checkout_eligible(status@, check_out.ymd(), today.ymd(), already_checked_out),
{
    str_eq(status, "approved") && !today.is_before(&check_out) && !already_checked_out
}

/// Guards against checking the same stay out twice.
pub fn require_not_already_checked_out(already: bool) -> (r: Result<(), AppError>)
    ensures
        r is Ok <==> !already,
        r is Err ==> r->Err_0@ == (ErrorKind::Conflict, "This stay has already been checked out."@),
{
    if already {
        return Err(AppError::new(ErrorKind::Conflict, "This stay has already been checked out."));
    }
    Ok(())
}

/// Only an approved stay can be checked out.
pub fn require_checkout_approved(status: &str) -> (r: Result<(), AppError>)
    ensures
        r is Ok <==> status@ == "approved"@,
        r is Err ==> r->Err_0@ == (ErrorKind::BadRequest, "Only approved stays can be checked out."@),
{
    if !str_eq(status, "approved") {
        return Err(AppError::new(ErrorKind::BadRequest, "Only approved stays can be checked out."));
    }
    Ok(())
}

/// Whether a stay may be checked out now: it is approved, not
/// already checked out, and its departure day has come. Refuses with the
/// first rule broken, in that order.
pub fn require_checkout_eligible(status: &str, check_out: Date, today: Date, already_checked_out: bool) -> (r: Result<(), AppError>)
    ensures
        r is Ok <==> checkout_eligible(status@, check_out.ymd(), today.ymd(), already_checked_out),
        status@ != "approved"@ ==> r is Err && r->Err_0@ == (ErrorKind::BadRequest, "Only approved stays can be checked out."@),
        status@ == "approved"@ && already_checked_out ==> r is Err && r->Err_0@ == (
            ErrorKind::Conflict,
            "This stay has already been checked out."@,
        ),
        status@ == "approved"@ && !already_checked_out && ymd_before(today.ymd(), check_out.ymd()) ==> r is Err
            && r->Err_0@ == (ErrorKind::BadRequest, "Checkout opens on your departure day."@),
{
    require_checkout_approved(status)?;
    require_not_already_checked_out(already_checked_out)?;
    if today.is_before(&check_out) {
        return Err(AppError::new(ErrorKind::BadRequest, "Checkout opens on your departure day."));
    }
    Ok(())
}

/// Once checked out, a stay is never eligible again, whatever the date.
pub proof fn law_checkout_happens_once(status: Seq<char>, check_out: (int, int, int), today: (int, int, int))
    ensures
        !checkout_eligible(status, check_out, today, true),
{
}

/// The admin's in-app note when a guest flags something at checkout:
/// "Jean flagged something at checkout (Oct 1 – Oct 5, 2026): the sink leaks".
pub fn flag_notice(guest: &str, check_in: Date, check_out: Date, note: &str) -> (s: String)
    ensures
        s@ == guest@ + " flagged something at checkout ("@ + crate::bookings::stay_range_text(check_in, check_out)
            + "): "@ + note@,
{
    let mut s = String::from_str(guest);
    s.append(" flagged something at checkout (");
    let r = crate::bookings::stay_range(check_in, check_out);
    s.append(r.as_str());
    s.append("): ");
    s.append(note);
    s
}

} // verus!

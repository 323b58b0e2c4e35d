//! Arrival details for a guest with a live stay: who may read them, and what
//! an admin may store.

use crate::error::{AppError, ErrorKind};
use crate::text::{str_eq, trim, trim_spec};
use vstd::prelude::*;

verus! {

/// An admin's check-in item as submitted.
#[derive(Debug, Clone)]
pub struct ItemBody {
    pub title: String,
    pub body: String,
    pub sort_order: i32,
}

impl ItemBody {
    /// The trimmed title and body, refusing either when blank.
    pub fn validated(&self) -> (r: Result<(&str, &str), AppError>)
        ensures
            trim_spec(self.title@).len() == 0 ==> r is Err && r->Err_0@ == (
                ErrorKind::BadRequest,
                "Title is required."@,
            ),
            trim_spec(self.title@).len() > 0 && trim_spec(self.body@).len() == 0 ==> r is Err
                && r->Err_0@ == (ErrorKind::BadRequest, "Body can't be empty."@),
            trim_spec(self.title@).len() > 0 && trim_spec(self.body@).len() > 0 ==> (r matches Ok(
                (t, b),
            ) && t@ == trim_spec(self.title@) && b@ == trim_spec(self.body@)),
    {
        let title = trim(self.title.as_str());
        if title.unicode_len() == 0 {
            return Err(AppError::new(ErrorKind::BadRequest, "Title is required."));
        }
        let body = trim(self.body.as_str());
        if body.unicode_len() == 0 {
            return Err(AppError::new(ErrorKind::BadRequest, "Body can't be empty."));
        }
        Ok((title, body))
    }
}

/// A booking opens the arrival details while it is approved and not yet
/// checked out.
pub open spec fn grants_access_spec(status: Seq<char>, checked_out: bool) -> bool {
    status == "approved"@ && !checked_out
}

pub fn grants_access(status: &str, checked_out: bool) -> (b: bool)
    ensures
        b == grants_access_spec(status@, checked_out),
{
    str_eq(status, "approved") && !checked_out
}

/// Whether any of a guest's bookings (status, checked out) opens the details.
pub fn has_access(bookings: &[(&str, bool)]) -> (b: bool)
    ensures
        b == exists|i: int| 0 <= i < bookings@.len() && grants_access_spec(#[trigger] bookings@[i].0@, bookings@[i].1),
{
    let mut i: usize = 0;
    while i < bookings.len()
        invariant
            i <= bookings@.len(),
            forall|j: int| 0 <= j < i ==> !grants_access_spec(#[trigger] bookings@[j].0@, bookings@[j].1),
        decreases bookings@.len() - i,
    {
        let (status, checked_out) = bookings[i];
        if grants_access(status, checked_out) {
            return true;
        }
        i = i + 1;
    }
    false
}

} // verus!

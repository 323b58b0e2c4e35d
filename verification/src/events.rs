//! Special events an admin marks on the calendar.

use crate::dates::{Date, ymd_before};
use crate::error::{AppError, ErrorKind, required};
use crate::text::{cleaned, opt_view, trim, trim_spec};
use vstd::prelude::*;

verus! {

/// An event as submitted.
#[derive(Debug, Clone)]
pub struct EventBody {
    pub name: String,
    pub event_date: Date,
    pub end_date: Option<Date>,
    pub description: Option<String>,
    pub emoji: Option<String>,
}

impl EventBody {
    /// The trimmed name (refused when blank), the trimmed description (absent
    /// when blank) and the emoji (🎉 when missing or blank), refusing an end
    /// before the start.
    pub fn validate(&self) -> (r: Result<(String, Option<String>, String), AppError>)
        ensures
            trim_spec(self.name@).len() == 0 ==> r is Err && r->Err_0@ == (ErrorKind::BadRequest, "Event name is required."@),
            trim_spec(self.name@).len() > 0 && (self.end_date matches Some(e) && ymd_before(e.ymd(), self.event_date.ymd()))
                ==> r is Err && r->Err_0@ == (ErrorKind::BadRequest, "End date must be on or after the start date."@),
            trim_spec(self.name@).len() > 0 && !(self.end_date matches Some(e) && ymd_before(e.ymd(), self.event_date.ymd()))
                ==> (r matches Ok((n, d, e)) && n@ == trim_spec(self.name@) && opt_view(d) == cleaned(opt_view(self.description))
                && e@ == match cleaned(opt_view(self.emoji)) {
                    Some(x) => x,
                    None => "🎉"@,
                }),
    {
        let name = required(self.name.as_str(), "Event name is required.")?;
        match self.end_date {
            Some(e) => {
                if e.is_before(&self.event_date) {
                    return Err(AppError::new(ErrorKind::BadRequest, "End date must be on or after the start date."));
                }
            },
            None => {},
        }
        let emoji = match crate::text::clean(self.emoji.clone()) {
            Some(x) => x,
            None => String::from_str("🎉"),
        };
        Ok((String::from_str(name), crate::text::clean(self.description.clone()), emoji))
    }
}

} // verus!

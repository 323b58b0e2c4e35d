//! The in-app inbox: what a message must hold and who it may go to.

use crate::error::{AppError, ErrorKind, required};
use crate::text::{cleaned, opt_view, trim_spec};
use crate::users::User;
use vstd::prelude::*;

verus! {

/// A message as submitted.
#[derive(Debug, Clone)]
pub struct SendMessage {
    /// Ignored for guests: their mail always goes to the admin.
    pub recipient_id: Option<u128>,
    pub subject: Option<String>,
    pub body: String,
}

/// Who a message goes to.
#[derive(Debug, Clone, Copy, PartialEq, Eq, Structural)]
pub enum Recipient {
    /// The id an admin picked.
    Chosen(u128),
    /// The admin, whoever that currently is.
    FirstAdmin,
}

impl SendMessage {
    /// The trimmed body (refused when blank), the trimmed subject (absent
    /// when blank), and where the message goes: an admin must pick someone,
    /// a guest always writes to the admin.
    pub fn validated(&self, sender: &User) -> (r: Result<(&str, Option<String>, Recipient), AppError>)
        ensures
            trim_spec(self.body@).len() == 0 ==> r is Err && r->Err_0@ == (ErrorKind::BadRequest, "Message can't be empty."@),
            trim_spec(self.body@).len() > 0 && sender.admin() && self.recipient_id is None ==> r is Err
                && r->Err_0@ == (ErrorKind::BadRequest, "Pick someone to send this to."@),
            trim_spec(self.body@).len() > 0 && !(sender.admin() && self.recipient_id is None) ==> (r matches Ok((b, s, to))
                && b@ == trim_spec(self.body@) && opt_view(s) == cleaned(opt_view(self.subject))
                && to == if sender.admin() {
                Recipient::Chosen(self.recipient_id->0)
            } else {
                Recipient::FirstAdmin
            }),
    {
        let text = required(self.body.as_str(), "Message can't be empty.")?;
        let to = if sender.is_admin() {
            match self.recipient_id {
                Some(id) => Recipient::Chosen(id),
                None => {
                    return Err(AppError::new(ErrorKind::BadRequest, "Pick someone to send this to."));
                },
            }
        } else {
            Recipient::FirstAdmin
        };
        Ok((text, crate::text::clean(self.subject.clone()), to))
    }
}

} // verus!

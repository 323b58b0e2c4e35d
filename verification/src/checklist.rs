//! The departure checklist an admin maintains.

use crate::error::{AppError, required};
use crate::text::trim_spec;
use vstd::prelude::*;

verus! {

/// A new checklist item as submitted.
#[derive(Debug, Clone)]
pub struct CreateItem {
    pub label: String,
    pub sort_order: i32,
}

/// An edited checklist item as submitted.
#[derive(Debug, Clone)]
pub struct UpdateItem {
    pub label: String,
    pub sort_order: i32,
    pub active: bool,
}

impl CreateItem {
    /// The trimmed label, refused when blank.
    pub fn validated(&self) -> (r: Result<&str, AppError>)
        ensures
            trim_spec(self.label@).len() > 0 ==> (r matches Ok(t) && t@ == trim_spec(self.label@)),
            trim_spec(self.label@).len() == 0 ==> r is Err && r->Err_0@ == (
                crate::error::ErrorKind::BadRequest,
                "Item label is required."@,
            ),
    {
        required(self.label.as_str(), "Item label is required.")
    }
}

impl UpdateItem {
    /// The trimmed label, refused when blank.
    pub fn validated(&self) -> (r: Result<&str, AppError>)
        ensures
            trim_spec(self.label@).len() > 0 ==> (r matches Ok(t) && t@ == trim_spec(self.label@)),
            trim_spec(self.label@).len() == 0 ==> r is Err && r->Err_0@ == (
                crate::error::ErrorKind::BadRequest,
                "Item label is required."@,
            ),
    {
        required(self.label.as_str(), "Item label is required.")
    }
}

} // verus!

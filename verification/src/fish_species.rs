//! The fish species a catch log may name.

use crate::error::{AppError, required};
use crate::text::trim_spec;
use vstd::prelude::*;

verus! {

/// A new species as submitted.
#[derive(Debug, Clone)]
pub struct CreateSpecies {
    pub name: String,
    pub sort_order: i32,
}

/// An edited species as submitted.
#[derive(Debug, Clone)]
pub struct UpdateSpecies {
    pub name: String,
    pub sort_order: i32,
    pub active: bool,
}

impl CreateSpecies {
    /// The trimmed name, refused when blank.
    pub fn validated(&self) -> (r: Result<&str, AppError>)
        ensures
            trim_spec(self.name@).len() > 0 ==> (r matches Ok(t) && t@ == trim_spec(self.name@)),
            trim_spec(self.name@).len() == 0 ==> r is Err && r->Err_0@ == (
                crate::error::ErrorKind::BadRequest,
                "Species name is required."@,
            ),
    {
        required(self.name.as_str(), "Species name is required.")
    }
}

impl UpdateSpecies {
    /// The trimmed name, refused when blank.
    pub fn validated(&self) -> (r: Result<&str, AppError>)
        ensures
            trim_spec(self.name@).len() > 0 ==> (r matches Ok(t) && t@ == trim_spec(self.name@)),
            trim_spec(self.name@).len() == 0 ==> r is Err && r->Err_0@ == (
                crate::error::ErrorKind::BadRequest,
                "Species name is required."@,
            ),
    {
        required(self.name.as_str(), "Species name is required.")
    }
}

} // verus!

//! Errors of authorizing a user, and what an owned thing tells of its owner.

pub mod error;

pub use error::AuthorizationError;

use crate::model::SubjectId;
use vstd::prelude::*;

verus! {

/// Something that belongs to a subject, so that ownership can be checked against a user.
pub trait AuthorizeOwner: Sized {
    /// The identifier of the owner.
    fn owner_id(&self) -> SubjectId;
}

} // verus!

//! The errors of authorization.

use crate::{Response, ResponseView, OK};
use core::convert::Infallible;
use vstd::prelude::*;

verus! {

/// What can go wrong while a user is authorized. No such failure is defined yet, so no
/// value of this type can be made.
#[derive(Debug)]
pub enum AuthorizationError {
    Never(Infallible),
}

impl AuthorizationError {
    /// The reply that reports the error: an empty one, since the error says nothing.
    pub fn into_response(self) -> (response: Response)
        ensures
            response@ == (ResponseView { status_code: OK, body: Seq::empty() }),
    {
        Response { status_code: OK, body: String::new() }
    }
}

} // verus!

//! The authentication token.

use crate::tokens::{Claims, Token, TokenView};
use vstd::prelude::*;

verus! {

/// A short-lived token that authenticates a request.
#[derive(Debug, Clone, PartialEq, Eq)]
pub struct AuthenticationToken {
    encoded: String,
    claims: Claims,
}

impl View for AuthenticationToken {
    type V = TokenView;

    closed spec fn view(&self) -> TokenView {
        TokenView { encoded: self.encoded@, claims: self.claims@ }
    }
}

impl Token for AuthenticationToken {
    const EXPIRE_SECS_VAR: &'static str = "AUTH_EXPIRE_SECS";

    fn new(encoded: String, claims: Claims) -> (token: Self) {
        Self { encoded, claims }
    }

    fn get_claims(&self) -> (claims: &Claims) {
        &self.claims
    }

    fn get_encoded(&self) -> (encoded: &String) {
        &self.encoded
    }
}

} // verus!

//! The library's error, and the reply that reports it.

use crate::authentication::AuthenticationError;
use crate::authorization::AuthorizationError;
use crate::tokens::TokenErrorView;
use crate::verification::VerificationError;
use crate::{Response, ResponseView, FORBIDDEN, INTERNAL_SERVER_ERROR, UNAUTHORIZED};
use vstd::prelude::*;

pub use crate::tokens::TokenError;

verus! {

/// Everything that can go wrong in this library.
#[derive(Debug)]
pub enum GateKeeperError {
    Authentication(AuthenticationError),
    Authorization(AuthorizationError),
    Verification(VerificationError),
    /// The expiration duration is no number that can be added to the time of issue.
    ParseInt,
    /// A configuration value is not there.
    EnvVar,
    /// A key identifier is no subject identifier; with what the parser said, for the logs.
    ParseUuid(String),
    /// A token could not be made, read or carried.
    Token(TokenError),
}

/// The mathematical content of an error.
pub enum GateKeeperErrorView {
    Authentication,
    Authorization,
    Verification,
    ParseInt,
    EnvVar,
    ParseUuid(Seq<char>),
    Token(TokenErrorView),
}

impl View for GateKeeperError {
    type V = GateKeeperErrorView;

    open spec fn view(&self) -> GateKeeperErrorView {
        match self {
            GateKeeperError::Authentication(_) => GateKeeperErrorView::Authentication,
            GateKeeperError::Authorization(_) => GateKeeperErrorView::Authorization,
            GateKeeperError::Verification(_) => GateKeeperErrorView::Verification,
            GateKeeperError::ParseInt => GateKeeperErrorView::ParseInt,
            GateKeeperError::EnvVar => GateKeeperErrorView::EnvVar,
            GateKeeperError::ParseUuid(detail) => GateKeeperErrorView::ParseUuid(detail@),
            GateKeeperError::Token(e) => GateKeeperErrorView::Token(e@),
        }
    }
}

impl GateKeeperErrorView {
    /// The status under which the error is reported. Whatever went wrong with a token is
    /// reported as unauthorized, also where the token error alone would say otherwise.
    pub open spec fn status_code(self) -> u16 {
        match self {
            GateKeeperErrorView::Authentication => UNAUTHORIZED,
            GateKeeperErrorView::Authorization => FORBIDDEN,
            GateKeeperErrorView::Verification => FORBIDDEN,
            GateKeeperErrorView::ParseInt => INTERNAL_SERVER_ERROR,
            GateKeeperErrorView::EnvVar => INTERNAL_SERVER_ERROR,
            GateKeeperErrorView::ParseUuid(_) => UNAUTHORIZED,
            GateKeeperErrorView::Token(_) => UNAUTHORIZED,
        }
    }

    /// The text with which the error is reported: that of the token error where it is one,
    /// a fixed sentence otherwise.
    pub open spec fn body(self) -> Seq<char> {
        match self {
            GateKeeperErrorView::Authentication => "Error authenticating user"@,
            GateKeeperErrorView::Authorization => "Error authorizing user"@,
            GateKeeperErrorView::Verification => "Error verifying token"@,
            GateKeeperErrorView::ParseInt => "Error parsing value"@,
            GateKeeperErrorView::EnvVar => "Error reading env var"@,
            GateKeeperErrorView::ParseUuid(_) => "Error parsing subject identifier"@,
            GateKeeperErrorView::Token(e) => e.body(),
        }
    }
}

impl GateKeeperError {
    /// The reply that reports the error: a status and a short text, and nothing of what
    /// caused it.
    pub fn into_response(self) -> (response: Response)
        ensures
            response@ == (ResponseView { status_code: self@.status_code(), body: self@.body() }),
    {
        match self {
            GateKeeperError::Authentication(_) => Response {
                status_code: UNAUTHORIZED,
                body: String::from_str("Error authenticating user"),
            },
            GateKeeperError::Authorization(_) => Response {
                status_code: FORBIDDEN,
                body: String::from_str("Error authorizing user"),
            },
            GateKeeperError::Verification(_) => Response {
                status_code: FORBIDDEN,
                body: String::from_str("Error verifying token"),
            },
            GateKeeperError::ParseInt => Response {
                status_code: INTERNAL_SERVER_ERROR,
                body: String::from_str("Error parsing value"),
            },
            GateKeeperError::EnvVar => Response {
                status_code: INTERNAL_SERVER_ERROR,
                body: String::from_str("Error reading env var"),
            },
            GateKeeperError::ParseUuid(_) => Response {
                status_code: UNAUTHORIZED,
                body: String::from_str("Error parsing subject identifier"),
            },
            GateKeeperError::Token(e) => {
                let inner = e.into_response();
                Response { status_code: UNAUTHORIZED, body: inner.body }
            },
        }
    }
}

/// A token error is reported as unauthorized, unless it is a link that could not be read,
/// which is reported as a failure of the service. Wrapped into the library's error it is
/// reported as unauthorized in every case, with the same text.
pub proof fn lemma_token_error_statuses(e: TokenErrorView)
    ensures
        e.status_code() == UNAUTHORIZED || e.status_code() == INTERNAL_SERVER_ERROR,
        e.status_code() == INTERNAL_SERVER_ERROR <==> (e is Base64Decode || e is Utf8),
        GateKeeperErrorView::Token(e).status_code() == UNAUTHORIZED,
        GateKeeperErrorView::Token(e).body() == e.body(),
{
}

/// What a crate said of a fault never shows in the reply: two token errors that are alike but
/// for that text are reported alike.
pub proof fn lemma_detail_stays_inside(payload: crate::ErrorPayload, one: Seq<char>, other: Seq<char>)
    ensures
        TokenErrorView::Unknown(one).body() == TokenErrorView::Unknown(other).body(),
        TokenErrorView::Base64Decode(one).body() == TokenErrorView::Base64Decode(other).body(),
        TokenErrorView::Utf8(one).body() == TokenErrorView::Utf8(other).body(),
        TokenErrorView::Decode(payload, one).body() == TokenErrorView::Decode(payload, other).body(),
        TokenErrorView::DecodeHeader(payload, one).body() == TokenErrorView::DecodeHeader(
            payload,
            other,
        ).body(),
        GateKeeperErrorView::ParseUuid(one).body() == GateKeeperErrorView::ParseUuid(other).body(),
{
}

} // verus!

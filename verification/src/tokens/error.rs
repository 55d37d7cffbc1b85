//! What can go wrong with a token, and the payload that such an error carries.

use crate::trusted::text_view;
use crate::{
    default_message, payload_json, write_payload_json, ErrorPayload, ErrorPayloadDraft, Response,
    ResponseView, INTERNAL_SERVER_ERROR, UNAUTHORIZED,
};
use vstd::prelude::*;

verus! {

/// What can go wrong with a token.
///
/// Where another crate found the fault, the error carries the text in which that crate
/// describes it. The text is for the logs: no reply holds it.
#[derive(Debug)]
pub enum TokenError {
    /// A failure that has no kind of its own, such as a token too long to be written as a
    /// link; with what went wrong.
    Unknown(String),
    /// A link was not URL-safe base64; with what the decoder said.
    Base64Decode(String),
    /// The bytes of a link were not UTF-8; with what the conversion said.
    Utf8(String),
    /// The expiry of a token is no date that a cookie can carry; with the expiry.
    ReadingExpiration(usize),
    /// The claims could not be signed.
    Encode(TokenErrorResponse),
    /// The header of a token could not be read; with what the reader said.
    DecodeHeader(TokenErrorResponse, String),
    /// The signature did not match, or the token was malformed; with what the verifier said.
    Decode(TokenErrorResponse, String),
    /// No token was supplied at all.
    MissingTokenString,
    /// A refresh token could not be used.
    RefreshToken(TokenErrorResponse),
}

/// The mathematical content of a token error.
pub enum TokenErrorView {
    Unknown(Seq<char>),
    Base64Decode(Seq<char>),
    Utf8(Seq<char>),
    ReadingExpiration(nat),
    Encode(ErrorPayload),
    DecodeHeader(ErrorPayload, Seq<char>),
    Decode(ErrorPayload, Seq<char>),
    MissingTokenString,
    RefreshToken(ErrorPayload),
}

impl View for TokenError {
    type V = TokenErrorView;

    open spec fn view(&self) -> TokenErrorView {
        match self {
            TokenError::Unknown(detail) => TokenErrorView::Unknown(detail@),
            TokenError::Base64Decode(detail) => TokenErrorView::Base64Decode(detail@),
            TokenError::Utf8(detail) => TokenErrorView::Utf8(detail@),
            TokenError::ReadingExpiration(exp) => TokenErrorView::ReadingExpiration(*exp as nat),
            TokenError::Encode(response) => TokenErrorView::Encode(response@),
            TokenError::DecodeHeader(response, detail) => TokenErrorView::DecodeHeader(
                response@,
                detail@,
            ),
            TokenError::Decode(response, detail) => TokenErrorView::Decode(response@, detail@),
            TokenError::MissingTokenString => TokenErrorView::MissingTokenString,
            TokenError::RefreshToken(response) => TokenErrorView::RefreshToken(response@),
        }
    }
}

impl TokenErrorView {
    /// The status under which the error is reported: a link that cannot be read lies with
    /// the service, everything else is unauthorized.
    pub open spec fn status_code(self) -> u16 {
        match self {
            TokenErrorView::Base64Decode(_) | TokenErrorView::Utf8(_) => INTERNAL_SERVER_ERROR,
            _ => UNAUTHORIZED,
        }
    }

    /// The text with which the error is reported: the payload as JSON where the error
    /// carries one, a fixed sentence where it does not. What a crate said of the fault is no
    /// part of it.
    pub open spec fn body(self) -> Seq<char> {
        match self {
            TokenErrorView::Unknown(_) => "Unknown error handling JWT"@,
            TokenErrorView::Base64Decode(_) => "Error decoding base64 value"@,
            TokenErrorView::Utf8(_) => "Error reading UTF-8 value"@,
            TokenErrorView::ReadingExpiration(_) => "Error creating expiration time for cookie"@,
            TokenErrorView::Encode(payload) => payload_json(payload),
            TokenErrorView::DecodeHeader(payload, _) => payload_json(payload),
            TokenErrorView::Decode(payload, _) => payload_json(payload),
            TokenErrorView::MissingTokenString => "Missing tokens string"@,
            TokenErrorView::RefreshToken(payload) => payload_json(payload),
        }
    }
}

impl TokenError {
    /// What the failing crate said of the fault, for the logs; nothing where the library
    /// found the fault itself.
    pub fn detail(&self) -> (detail: Option<&String>)
        ensures
            match detail {
                Some(text) => {
                    ||| self@ == TokenErrorView::Unknown(text@)
                    ||| self@ == TokenErrorView::Base64Decode(text@)
                    ||| self@ == TokenErrorView::Utf8(text@)
                    ||| self@ matches TokenErrorView::DecodeHeader(_, d) && d == text@
                    ||| self@ matches TokenErrorView::Decode(_, d) && d == text@
                },
                None => {
                    ||| self@ is ReadingExpiration
                    ||| self@ is Encode
                    ||| self@ is MissingTokenString
                    ||| self@ is RefreshToken
                },
            },
    {
        match self {
            TokenError::Unknown(detail) => Some(detail),
            TokenError::Base64Decode(detail) => Some(detail),
            TokenError::Utf8(detail) => Some(detail),
            TokenError::DecodeHeader(_, detail) => Some(detail),
            TokenError::Decode(_, detail) => Some(detail),
            _ => None,
        }
    }

    /// The reply that reports the error. Nothing of the cause goes into it but the payload
    /// that the error was made with.
    pub fn into_response(self) -> (response: Response)
        ensures
            response@ == (ResponseView { status_code: self@.status_code(), body: self@.body() }),
    {
        match self {
            TokenError::ReadingExpiration(_) => Response {
                status_code: UNAUTHORIZED,
                body: String::from_str("Error creating expiration time for cookie"),
            },
            TokenError::Base64Decode(_) => Response {
                status_code: INTERNAL_SERVER_ERROR,
                body: String::from_str("Error decoding base64 value"),
            },
            TokenError::Utf8(_) => Response {
                status_code: INTERNAL_SERVER_ERROR,
                body: String::from_str("Error reading UTF-8 value"),
            },
            TokenError::Unknown(_) => Response {
                status_code: UNAUTHORIZED,
                body: String::from_str("Unknown error handling JWT"),
            },
            TokenError::Encode(e) => Response { status_code: UNAUTHORIZED, body: e.to_json() },
            TokenError::DecodeHeader(e, _) => Response {
                status_code: UNAUTHORIZED,
                body: e.to_json(),
            },
            TokenError::Decode(e, _) => Response { status_code: UNAUTHORIZED, body: e.to_json() },
            TokenError::MissingTokenString => Response {
                status_code: UNAUTHORIZED,
                body: String::from_str("Missing tokens string"),
            },
            TokenError::RefreshToken(e) => Response {
                status_code: UNAUTHORIZED,
                body: e.to_json(),
            },
        }
    }
}

/// The payload of a token error: a status and a message.
#[derive(Debug)]
pub struct TokenErrorResponse {
    status_code: u16,
    message: String,
}

impl View for TokenErrorResponse {
    type V = ErrorPayload;

    closed spec fn view(&self) -> ErrorPayload {
        ErrorPayload { status_code: self.status_code, message: self.message@ }
    }
}

impl TokenErrorResponse {
    /// Starts a response with nothing set.
    pub fn build() -> (builder: TokenErrorResponseBuilder)
        ensures
            builder@ == (ErrorPayloadDraft { status_code: None, message: None }),
    {
        TokenErrorResponseBuilder { status_code: None, message: None }
    }

    pub fn status_code(&self) -> (status_code: u16)
        ensures
            status_code == self@.status_code,
    {
        self.status_code
    }

    pub fn message(&self) -> (message: &String)
        ensures
            message@ == self@.message,
    {
        &self.message
    }

    /// The response as JSON, the form in which it is displayed.
    pub fn to_json(&self) -> (json: String)
        ensures
            json@ == payload_json(self@),
    {
        write_payload_json(self.status_code, self.message.as_str())
    }
}

impl Default for TokenErrorResponse {
    fn default() -> (response: Self)
        ensures
            response@ == (ErrorPayload { status_code: UNAUTHORIZED, message: default_message() }),
    {
        Self { status_code: UNAUTHORIZED, message: String::from_str("Unauthorized") }
    }
}

#[derive(Debug)]
pub struct TokenErrorResponseBuilder {
    status_code: Option<u16>,
    message: Option<String>,
}

impl View for TokenErrorResponseBuilder {
    type V = ErrorPayloadDraft;

    closed spec fn view(&self) -> ErrorPayloadDraft {
        ErrorPayloadDraft { status_code: self.status_code, message: text_view(self.message) }
    }
}

impl Default for TokenErrorResponseBuilder {
    fn default() -> (builder: Self)
        ensures
            builder@ == (ErrorPayloadDraft { status_code: None, message: None }),
    {
        Self { status_code: None, message: None }
    }
}

impl TokenErrorResponseBuilder {
    /// Sets the status.
    pub fn status_code(self, status_code: u16) -> (builder: Self)
        ensures
            builder@ == (ErrorPayloadDraft { status_code: Some(status_code), ..self@ }),
    {
        Self { status_code: Some(status_code), message: self.message }
    }

    /// Sets the message.
    pub fn message(self, message: String) -> (builder: Self)
        ensures
            builder@ == (ErrorPayloadDraft { message: Some(message@), ..self@ }),
    {
        Self { status_code: self.status_code, message: Some(message) }
    }

    /// Makes the response: what was not set takes its default.
    pub fn build(self) -> (response: TokenErrorResponse)
        ensures
            response@ == self@.finish(),
    {
        TokenErrorResponse {
            status_code: match self.status_code {
                Some(code) => code,
                None => UNAUTHORIZED,
            },
            message: match self.message {
                Some(message) => message,
                None => String::from_str("Unauthorized"),
            },
        }
    }
}

} // verus!

//! Signed, time-bound identity tokens: issuing, encoding, decoding and checking them,
//! with the transport forms each kind of token needs and a structured error payload.

pub mod authentication;
pub mod authorization;
pub mod error;
pub mod model;
pub mod tokens;
pub mod trusted;
pub mod verification;

use vstd::prelude::*;

verus! {

/// The status that every failure carries unless another one is set.
pub const UNAUTHORIZED: u16 = 401;

/// The status of an authorization or verification failure.
pub const FORBIDDEN: u16 = 403;

/// The status of a failure that lies with the service itself.
pub const INTERNAL_SERVER_ERROR: u16 = 500;

/// The status of a reply that reports no failure.
pub const OK: u16 = 200;

/// The message that every failure carries unless another one is set.
pub open spec fn default_message() -> Seq<char> {
    "Unauthorized"@
}

/// The mathematical content of an error payload.
pub struct ErrorPayload {
    pub status_code: u16,
    pub message: Seq<char>,
}

/// An error payload in the making: each part is either set or left to its default.
pub struct ErrorPayloadDraft {
    pub status_code: Option<u16>,
    pub message: Option<Seq<char>>,
}

impl ErrorPayloadDraft {
    /// The payload that the draft stands for: what is not set takes its default.
    pub open spec fn finish(self) -> ErrorPayload {
        ErrorPayload {
            status_code: match self.status_code {
                Some(code) => code,
                None => UNAUTHORIZED,
            },
            message: match self.message {
                Some(message) => message,
                None => default_message(),
            },
        }
    }
}

/// The JSON text of an error payload, an object with the members `status_code` and
/// `message`.
pub open spec fn payload_json(payload: ErrorPayload) -> Seq<char> {
    trusted::json_object_text("status_code"@, payload.status_code, "message"@, payload.message)
}

/// Writes an error payload as JSON.
pub fn write_payload_json(status_code: u16, message: &str) -> (json: String)
    ensures
        json@ == payload_json(ErrorPayload { status_code, message: message@ }),
{
    trusted::json_object("status_code", status_code, "message", message)
}

/// The mathematical content of a reply.
pub struct ResponseView {
    pub status_code: u16,
    pub body: Seq<char>,
}

/// What a failure sends back: a status and a body of plain text.
#[derive(Debug)]
pub struct Response {
    pub status_code: u16,
    pub body: String,
}

impl View for Response {
    type V = ResponseView;

    open spec fn view(&self) -> ResponseView {
        ResponseView { status_code: self.status_code, body: self.body@ }
    }
}

pub type GateKeeperResult<T> = Result<T, error::GateKeeperError>;

/// A status and a message, as a failure shows them to the outside.
#[derive(Debug)]
pub struct ErrorResponse {
    status_code: u16,
    message: String,
}

impl View for ErrorResponse {
    type V = ErrorPayload;

    closed spec fn view(&self) -> ErrorPayload {
        ErrorPayload { status_code: self.status_code, message: self.message@ }
    }
}

impl ErrorResponse {
    /// Starts a response with nothing set.
    pub fn build() -> (builder: ErrorResponseBuilder)
        ensures
            builder@ == (ErrorPayloadDraft { status_code: None, message: None }),
    {
        ErrorResponseBuilder { status_code: None, message: None }
    }

    pub fn status_code(&self) -> (status_code: u16)
        ensures
            status_code == self@.status_code,
    {
        self.status_code
    }

    pub fn message(&self) -> (message: &String)
        ensures
            message@ == self@.message,
    {
        &self.message
    }

    /// The response as JSON, the form in which it is displayed.
    pub fn to_json(&self) -> (json: String)
        ensures
            json@ == payload_json(self@),
    {
        write_payload_json(self.status_code, self.message.as_str())
    }
}

impl Default for ErrorResponse {
    fn default() -> (response: Self)
        ensures
            response@ == (ErrorPayload { status_code: UNAUTHORIZED, message: default_message() }),
    {
        Self { status_code: UNAUTHORIZED, message: String::from_str("Unauthorized") }
    }
}

#[derive(Debug)]
pub struct ErrorResponseBuilder {
    status_code: Option<u16>,
    message: Option<String>,
}

impl View for ErrorResponseBuilder {
    type V = ErrorPayloadDraft;

    closed spec fn view(&self) -> ErrorPayloadDraft {
        ErrorPayloadDraft {
            status_code: self.status_code,
            message: trusted::text_view(self.message),
        }
    }
}

impl Default for ErrorResponseBuilder {
    fn default() -> (builder: Self)
        ensures
            builder@ == (ErrorPayloadDraft { status_code: None, message: None }),
    {
        Self { status_code: None, message: None }
    }
}

impl ErrorResponseBuilder {
    /// Sets the status.
    pub fn status_code(self, status_code: u16) -> (builder: Self)
        ensures
            builder@ == (ErrorPayloadDraft { status_code: Some(status_code), ..self@ }),
    {
        Self { status_code: Some(status_code), message: self.message }
    }

    /// Sets the message.
    pub fn message(self, message: String) -> (builder: Self)
        ensures
            builder@ == (ErrorPayloadDraft { message: Some(message@), ..self@ }),
    {
        Self { status_code: self.status_code, message: Some(message) }
    }

    /// Makes the response: what was not set takes its default.
    pub fn build(self) -> (response: ErrorResponse)
        ensures
            response@ == self@.finish(),
    {
        ErrorResponse {
            status_code: match self.status_code {
                Some(code) => code,
                None => UNAUTHORIZED,
            },
            message: match self.message {
                Some(message) => message,
                None => String::from_str("Unauthorized"),
            },
        }
    }
}

} // verus!

//! Verifying an account: its errors and the mail that carries the link.

pub mod error;
pub mod message;

pub use error::VerificationError;
pub use message::{Mail, MailView, UserVerificationMail};

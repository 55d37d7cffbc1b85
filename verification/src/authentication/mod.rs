//! Errors of authenticating a user.

pub mod error;

pub use error::AuthenticationError;

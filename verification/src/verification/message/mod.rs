//! Mails and what they have to tell.

pub mod mailer;
pub mod verification_mail;

pub use mailer::{Mail, MailView};
pub use verification_mail::UserVerificationMail;

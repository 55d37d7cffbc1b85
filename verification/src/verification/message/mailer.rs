//! What a mail has to tell before it can be sent.

use crate::model::GateKeeperModel;
use crate::GateKeeperResult;
use vstd::prelude::*;

verus! {

/// The mathematical content of a mail. The sender, the subject and the two bodies may still
/// be missing.
pub struct MailView {
    pub from: Option<Seq<char>>,
    pub to: Seq<char>,
    pub to_name: Seq<char>,
    pub subject: Option<Seq<char>>,
    pub html_body: Option<Seq<char>>,
    pub text_body: Option<Seq<char>>,
}

/// A mail that can be handed to a mailer.
pub trait Mail: Sized + View<V = MailView> {
    /// Writes the mail for `user`, where `link_prefix` is what the configuration holds as the
    /// start of the links that go into mails.
    fn try_from_user<M: GateKeeperModel>(user: M, link_prefix: Option<&str>) -> GateKeeperResult<
        Self,
    >;

    /// The sender's address.
    fn email_from(&self) -> (from: &str)
        requires
            self@.from is Some,
        ensures
            from@ == self@.from->0,
    ;

    /// The receiver's name.
    fn email_to_name(&self) -> (to_name: &str)
        ensures
            to_name@ == self@.to_name,
    ;

    /// The receiver's address.
    fn email_to(&self) -> (to: &str)
        ensures
            to@ == self@.to,
    ;

    fn email_subject(&self) -> (subject: &str)
        requires
            self@.subject is Some,
        ensures
            subject@ == self@.subject->0,
    ;

    fn email_html_body(&self) -> (body: &str)
        requires
            self@.html_body is Some,
        ensures
            body@ == self@.html_body->0,
    ;

    fn email_text_body(&self) -> (body: &str)
        requires
            self@.text_body is Some,
        ensures
            body@ == self@.text_body->0,
    ;
}

} // verus!

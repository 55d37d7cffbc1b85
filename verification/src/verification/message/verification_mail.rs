//! The mail that carries a verification link.

use crate::error::{GateKeeperError, GateKeeperErrorView};
use crate::model::GateKeeperModel;
use crate::tokens::verification_token::{link_fits, link_text, link_wire};
use crate::tokens::{outcome, str_view, Token, TokenError, TokenErrorView, TokenView, VerificationToken};
use crate::trusted::text_view;
use crate::verification::message::{Mail, MailView};
use crate::GateKeeperResult;
use vstd::prelude::*;

verus! {

/// The mail that asks a user to verify an email address by following a link.
pub struct UserVerificationMail {
    from: Option<String>,
    to: String,
    to_name: String,
    subject: Option<String>,
    html_body: Option<String>,
    text_body: Option<String>,
}

impl View for UserVerificationMail {
    type V = MailView;

    closed spec fn view(&self) -> MailView {
        MailView {
            from: text_view(self.from),
            to: self.to@,
            to_name: self.to_name@,
            subject: text_view(self.subject),
            html_body: text_view(self.html_body),
            text_body: text_view(self.text_body),
        }
    }
}

/// The sender of every verification mail.
pub open spec fn sender() -> Seq<char> {
    "ShaZone <no-reply@sha.zone>"@
}

/// The subject of every verification mail.
pub open spec fn subject() -> Seq<char> {
    "Verify your email address"@
}

/// A verification mail that is not yet addressed and has no bodies.
pub open spec fn blank_mail() -> MailView {
    MailView {
        from: Some(sender()),
        to: Seq::empty(),
        to_name: Seq::empty(),
        subject: Some(subject()),
        html_body: None,
        text_body: None,
    }
}

/// The HTML body of the mail that carries `link`.
pub open spec fn html_body(link: Seq<char>) -> Seq<char> {
    "<p>Hi!</p>\n        <p>Please click on the following link to verify your email address:</p>\n        <p><a href=\""@
        + link + "\">"@ + link
        + "</a></p>\n        <p>If you did not request this, please ignore this email.</p>"@
}

/// The plain-text body of the mail that carries `link`.
pub open spec fn text_body(link: Seq<char>) -> Seq<char> {
    "Hi!\n            Please click on the following link to verify your email address:\n            \""@
        + link
        + "\"\n\n            If you did not request this, please ignore this email."@
}

/// The link of a verification mail: the configured prefix, then the wire string of the
/// user's verification token in its link form, from which `try_from_base64` reads the token.
pub open spec fn verification_link(prefix: Seq<char>, encoded: Seq<char>) -> Seq<char> {
    prefix + link_text(encoded)
}

/// The verification mail that carries `link` to the user with the address `to` and the name
/// `to_name`.
pub open spec fn verification_mail(link: Seq<char>, to: Seq<char>, to_name: Seq<char>) -> MailView {
    MailView {
        to,
        to_name,
        html_body: Some(html_body(link)),
        text_body: Some(text_body(link)),
        ..blank_mail()
    }
}

/// What is said of a token whose link form cannot be written.
pub open spec fn too_long_for_a_link() -> Seq<char> {
    "the token is too long to be written as a link"@
}

/// The verification mail that comes of the configured prefix and of what the user answers:
/// the verification token, the address and the name.
///
/// There is none without a configured prefix, none for a user without a verification token,
/// and none for a token whose link form cannot be written.
pub open spec fn answered_mail(
    link_prefix: Option<Seq<char>>,
    token: Option<TokenView>,
    to: Seq<char>,
    to_name: Seq<char>,
) -> Result<MailView, GateKeeperErrorView> {
    match (link_prefix, token) {
        (None, _) => Err(GateKeeperErrorView::EnvVar),
        (Some(_), None) => Err(GateKeeperErrorView::Token(TokenErrorView::MissingTokenString)),
        (Some(prefix), Some(token)) => if link_fits(token.encoded) {
            Ok(verification_mail(verification_link(prefix, token.encoded), to, to_name))
        } else {
            Err(GateKeeperErrorView::Token(TokenErrorView::Unknown(too_long_for_a_link())))
        },
    }
}

/// The view of an optional verification token.
pub open spec fn token_view(token: Option<VerificationToken>) -> Option<TokenView> {
    match token {
        Some(t) => Some(t@),
        None => None,
    }
}

/// Whether `part` stands in `text` from the position `at` on.
pub open spec fn occurs_at(text: Seq<char>, part: Seq<char>, at: int) -> bool {
    0 <= at && at + part.len() <= text.len() && text.subrange(at, at + part.len()) == part
}

/// Both bodies of a verification mail hold the link, letter for letter.
pub proof fn lemma_bodies_hold_link(link: Seq<char>)
    ensures
        exists|at: int| occurs_at(html_body(link), link, at),
        exists|at: int| occurs_at(text_body(link), link, at),
{
    let html_start =
        "<p>Hi!</p>\n        <p>Please click on the following link to verify your email address:</p>\n        <p><a href=\""@;
    let text_start =
        "Hi!\n            Please click on the following link to verify your email address:\n            \""@;
    let html_at = html_start.len() as int;
    assert(html_body(link).subrange(html_at, html_at + link.len()) =~= link);
    assert(occurs_at(html_body(link), link, html_at));
    let text_at = text_start.len() as int;
    assert(text_body(link).subrange(text_at, text_at + link.len()) =~= link);
    assert(occurs_at(text_body(link), link, text_at));
}

impl Default for UserVerificationMail {
    fn default() -> (mail: Self)
        ensures
            mail@ == blank_mail(),
    {
        Self {
            from: Some(String::from_str("ShaZone <no-reply@sha.zone>")),
            to: String::new(),
            to_name: String::new(),
            subject: Some(String::from_str("Verify your email address")),
            html_body: None,
            text_body: None,
        }
    }
}

impl UserVerificationMail {
    /// Writes the HTML body around `link`.
    pub fn generate_html_body(link: &str) -> (r: GateKeeperResult<String>)
        ensures
            outcome(r) == Ok::<_, GateKeeperErrorView>(html_body(link@)),
    {
        let body = String::from_str(
            "<p>Hi!</p>\n        <p>Please click on the following link to verify your email address:</p>\n        <p><a href=\"",
        ).concat(link).concat("\">").concat(link).concat(
            "</a></p>\n        <p>If you did not request this, please ignore this email.</p>",
        );
        Ok(body)
    }

    /// Writes the plain-text body around `link`.
    pub fn generate_text_body(link: &str) -> (r: GateKeeperResult<String>)
        ensures
            outcome(r) == Ok::<_, GateKeeperErrorView>(text_body(link@)),
    {
        let body = String::from_str(
            "Hi!\n            Please click on the following link to verify your email address:\n            \"",
        ).concat(link).concat(
            "\"\n\n            If you did not request this, please ignore this email.",
        );
        Ok(body)
    }

    /// Puts the link of a verification mail together: the prefix, then the token in its link
    /// form.
    pub fn link_for(link_prefix: &str, token: &VerificationToken) -> (link: String)
        requires
            link_fits(token@.encoded),
        ensures
            link@ == verification_link(link_prefix@, token@.encoded),
            link_wire(link_text(token@.encoded)) == Ok::<_, GateKeeperErrorView>(
                token@.encoded,
            ),
    {
        match token.try_as_base64() {
            Ok(hash) => String::from_str(link_prefix).concat(hash.as_str()),
            Err(_) => String::from_str(link_prefix),
        }
    }

    /// Writes the mail that carries `link` to the user with the address `to` and the name
    /// `to_name`.
    pub fn try_with_link(link: &str, to: &str, to_name: &str) -> (r: GateKeeperResult<Self>)
        ensures
            outcome(r) == Ok::<_, GateKeeperErrorView>(verification_mail(link@, to@, to_name@)),
    {
        let html = match Self::generate_html_body(link) {
            Ok(body) => body,
            Err(e) => {
                return Err(e);
            },
        };
        let text = match Self::generate_text_body(link) {
            Ok(body) => body,
            Err(e) => {
                return Err(e);
            },
        };
        Ok(
            Self {
                from: Some(String::from_str("ShaZone <no-reply@sha.zone>")),
                to: String::from_str(to),
                to_name: String::from_str(to_name),
                subject: Some(String::from_str("Verify your email address")),
                html_body: Some(html),
                text_body: Some(text),
            },
        )
    }
}

impl UserVerificationMail {
    /// Writes the mail from the configured prefix and from what the user answers. The token
    /// part of the link, read as a link, gives the token's wire string back.
    pub fn try_from_answers(
        link_prefix: Option<&str>,
        token: Option<VerificationToken>,
        to: &str,
        to_name: &str,
    ) -> (r: GateKeeperResult<Self>)
        ensures
            outcome(r) == answered_mail(str_view(link_prefix), token_view(token), to@, to_name@),
            r is Ok ==> (token matches Some(t) && link_wire(link_text(t@.encoded)) == Ok::<
                _,
                GateKeeperErrorView,
            >(t@.encoded)),
    {
        let prefix = match link_prefix {
            Some(prefix) => prefix,
            None => {
                return Err(GateKeeperError::EnvVar);
            },
        };
        let token = match token {
            Some(token) => token,
            None => {
                return Err(GateKeeperError::Token(TokenError::MissingTokenString));
            },
        };
        if !token.fits_in_link() {
            return Err(
                GateKeeperError::Token(
                    TokenError::Unknown(
                        String::from_str("the token is too long to be written as a link"),
                    ),
                ),
            );
        }
        let link = Self::link_for(prefix, &token);
        Self::try_with_link(link.as_str(), to, to_name)
    }
}

impl Mail for UserVerificationMail {
    /// Writes the mail that carries the user's verification token as a link. The user is
    /// asked only where a prefix is configured.
    ///
    /// The user's answers decide the mail: it is what `try_from_answers` gives for the prefix
    /// and for some token answer, some address and some name.
    fn try_from_user<M: GateKeeperModel>(user: M, link_prefix: Option<&str>) -> (r:
        GateKeeperResult<Self>)
        ensures
            link_prefix is None ==> outcome(r) == Err::<MailView, _>(GateKeeperErrorView::EnvVar),
            exists|token: Option<TokenView>, to: Seq<char>, to_name: Seq<char>|
                outcome(r) == #[trigger] answered_mail(str_view(link_prefix), token, to, to_name),
    {
        if link_prefix.is_none() {
            proof {
                let unasked = answered_mail(str_view(link_prefix), None, Seq::empty(), Seq::empty());
                assert(unasked == Err::<MailView, _>(GateKeeperErrorView::EnvVar));
            }
            return Err(GateKeeperError::EnvVar);
        }
        let token = user.verification_token();
        let to = user.email();
        let to_name = user.first_name();
        let r = Self::try_from_answers(link_prefix, token, to, to_name);
        proof {
            assert(outcome(r) == answered_mail(
                str_view(link_prefix),
                token_view(token),
                to@,
                to_name@,
            ));
        }
        r
    }

    fn email_from(&self) -> (from: &str) {
        self.from.as_ref().unwrap().as_str()
    }

    fn email_to_name(&self) -> (to_name: &str) {
        self.to_name.as_str()
    }

    fn email_to(&self) -> (to: &str) {
        self.to.as_str()
    }

    fn email_subject(&self) -> (subject: &str) {
        self.subject.as_ref().unwrap().as_str()
    }

    fn email_html_body(&self) -> (body: &str) {
        self.html_body.as_ref().unwrap().as_str()
    }

    fn email_text_body(&self) -> (body: &str) {
        self.text_body.as_ref().unwrap().as_str()
    }
}

} // verus!

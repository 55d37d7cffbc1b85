//! What the library asks of a user model, and the identifier that users go by.

use crate::tokens::VerificationToken;
use crate::trusted::{answer_view, uuid_format, uuid_parse, uuid_text, uuid_value};
use vstd::prelude::*;

verus! {

/// The unique identifier of a subject: a UUID, held by its 128-bit value.
#[derive(Debug, Clone, Copy, PartialEq, Eq, Hash)]
pub struct SubjectId {
    pub value: u128,
}

impl View for SubjectId {
    type V = SubjectId;

    open spec fn view(&self) -> SubjectId {
        *self
    }
}

/// The identifier that a text writes, or what the parser says of a text that writes none.
pub open spec fn subject_id_of(text: Seq<char>) -> Result<SubjectId, Seq<char>> {
    match uuid_value(text) {
        Ok(value) => Ok(SubjectId { value }),
        Err(detail) => Err(detail),
    }
}

impl SubjectId {
    pub fn from_u128(value: u128) -> (id: Self)
        ensures
            id.value == value,
    {
        SubjectId { value }
    }

    pub fn as_u128(&self) -> (value: u128)
        ensures
            value == self.value,
    {
        self.value
    }

    /// The identifier as text: hyphenated groups of lower-case hexadecimal digits. Parsing the
    /// text gives the identifier back.
    pub fn to_text(&self) -> (text: String)
        ensures
            text@ == uuid_text(self.value),
            subject_id_of(text@) == Ok::<_, Seq<char>>(*self),
    {
        uuid_format(self.value)
    }

    /// Reads an identifier from its text, or tells what the parser says of the text.
    pub fn try_parse_str(text: &str) -> (id: Result<SubjectId, String>)
        ensures
            answer_view(id) == subject_id_of(text@),
    {
        match uuid_parse(text) {
            Ok(value) => Ok(SubjectId { value }),
            Err(detail) => Err(detail),
        }
    }

    /// Reads an identifier from its text.
    pub fn parse_str(text: &str) -> (id: Option<SubjectId>)
        ensures
            id == match subject_id_of(text@) {
                Ok(id) => Some(id),
                Err(_) => None,
            },
    {
        match Self::try_parse_str(text) {
            Ok(id) => Some(id),
            Err(_) => None,
        }
    }
}

/// A user or account that tokens can be issued for. Nothing is asked of an implementation
/// but that it answers: the library makes no assumption on what the methods return.
pub trait GateKeeperModel: Send + Sync {
    /// The subject's unique identifier.
    fn id(&self) -> SubjectId;

    /// The subject's own signing secret.
    fn secret(&self) -> &'static str;

    fn first_name(&self) -> &str;

    fn last_name(&self) -> &str;

    fn email(&self) -> &str;

    /// The verification token minted for the subject, if there is one.
    fn verification_token(&self) -> Option<VerificationToken>;
}

} // verus!

//! From a wire string to the subject that it names, without any secret.

use crate::error::{GateKeeperError, GateKeeperErrorView};
use crate::model::{subject_id_of, SubjectId};
use crate::tokens::{header_result, headers, outcome, Header, HeaderView};
use crate::trusted::{answer_view, read_header_key_id};
use crate::GateKeeperResult;
use vstd::prelude::*;

verus! {

/// Finds out whose token a wire string is, before the token can be verified.
pub struct TokenService;

/// The subject that a header names: its key identifier, read as a subject identifier. A
/// header without a key identifier names none.
pub open spec fn header_subject(header: HeaderView) -> Result<SubjectId, GateKeeperErrorView> {
    let kid = match header.kid {
        Some(kid) => kid,
        None => Seq::empty(),
    };
    subject_result_of(subject_id_of(kid))
}

/// The subject that a wire string names in its header.
pub open spec fn token_subject(encoded: Seq<char>) -> Result<SubjectId, GateKeeperErrorView> {
    match headers(encoded) {
        Ok(header) => header_subject(header),
        Err(e) => Err(e),
    }
}

/// What finding the subject makes of the parser's answer for the key identifier.
pub open spec fn subject_result_of(parsed: Result<SubjectId, Seq<char>>) -> Result<
    SubjectId,
    GateKeeperErrorView,
> {
    match parsed {
        Ok(id) => Ok(id),
        Err(detail) => Err(GateKeeperErrorView::ParseUuid(detail)),
    }
}

impl TokenService {
    /// Reads the header of a wire string. Nothing is verified.
    pub fn get_token_headers_from_encoded(encoded: String) -> (r: GateKeeperResult<Header>)
        ensures
            outcome(r) == headers(encoded@),
    {
        header_result(read_header_key_id(encoded.as_str()))
    }

    /// Turns the parser's answer for a key identifier into the result of finding the subject.
    pub fn subject_result(parsed: Result<SubjectId, String>) -> (r: GateKeeperResult<SubjectId>)
        ensures
            outcome(r) == subject_result_of(answer_view(parsed)),
    {
        match parsed {
            Ok(id) => Ok(id),
            Err(detail) => Err(GateKeeperError::ParseUuid(detail)),
        }
    }

    /// Takes the subject from a header.
    pub fn try_get_subject_for_header(header: &Header) -> (r: GateKeeperResult<SubjectId>)
        ensures
            outcome(r) == header_subject(header@),
    {
        let parsed = match &header.kid {
            Some(kid) => SubjectId::try_parse_str(kid.as_str()),
            None => SubjectId::try_parse_str(""),
        };
        proof {
            reveal_strlit("");
            assert(""@ == Seq::<char>::empty());
        }
        Self::subject_result(parsed)
    }

    /// Finds the subject that a wire string names as its owner, so that the owner's secret
    /// can be looked up. The answer is not yet trusted: only decoding with that secret shows
    /// whether the token is the subject's.
    pub fn try_get_subject_for_encoded(encoded: String) -> (r: GateKeeperResult<SubjectId>)
        ensures
            outcome(r) == token_subject(encoded@),
    {
        match Self::get_token_headers_from_encoded(encoded) {
            Ok(header) => Self::try_get_subject_for_header(&header),
            Err(e) => Err(e),
        }
    }
}

} // verus!

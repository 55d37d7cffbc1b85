//! The verification token and the link form it travels in.

use crate::error::{GateKeeperError, GateKeeperErrorView};
use crate::model::SubjectId;
use crate::tokens::service::token_subject;
use crate::tokens::{decoded, outcome, Claims, Token, TokenError, TokenErrorView, TokenView};
use crate::trusted::{
    answer_view, base64_url_bytes, base64_url_decode, base64_url_encode, base64_url_text,
    string_from_utf8, utf8_error_text,
};
use crate::GateKeeperResult;
use vstd::prelude::*;
use vstd::utf8::{
    decode_utf8, encode_utf8, encode_utf8_decode_utf8, encode_utf8_valid_utf8, valid_utf8,
};

verus! {

/// A token that verifies an account once. It travels in a link.
#[derive(Debug, Clone, PartialEq, Eq)]
pub struct VerificationToken {
    encoded: String,
    claims: Claims,
}

impl View for VerificationToken {
    type V = TokenView;

    closed spec fn view(&self) -> TokenView {
        TokenView { encoded: self.encoded@, claims: self.claims@ }
    }
}

/// The form in which a wire string goes into a link: the URL-safe base64 text of its UTF-8
/// bytes.
pub open spec fn link_text(encoded: Seq<char>) -> Seq<char> {
    base64_url_text(encode_utf8(encoded))
}

/// Whether the link form of a wire string can be written: four characters for every three
/// bytes of the wire string, a number that has to fit in `usize`.
pub open spec fn link_fits(encoded: Seq<char>) -> bool {
    (encode_utf8(encoded).len() / 3) * 4 + 4 <= usize::MAX
}

/// What reading a link makes of the base64 decoder's answer: the bytes must be UTF-8, and
/// the wire string is the text they encode.
pub open spec fn link_outcome(bytes: Result<Seq<u8>, Seq<char>>) -> Result<
    Seq<char>,
    GateKeeperErrorView,
> {
    match bytes {
        Err(detail) => Err(GateKeeperErrorView::Token(TokenErrorView::Base64Decode(detail))),
        Ok(bytes) => if valid_utf8(bytes) {
            Ok(decode_utf8(bytes))
        } else {
            Err(GateKeeperErrorView::Token(TokenErrorView::Utf8(utf8_error_text(bytes))))
        },
    }
}

/// The wire string that a link holds.
pub open spec fn link_wire(hash: Seq<char>) -> Result<Seq<char>, GateKeeperErrorView> {
    link_outcome(base64_url_bytes(hash))
}

/// The token that a link holds under a secret.
pub open spec fn link_token(hash: Seq<char>, secret: Seq<char>) -> Result<
    TokenView,
    GateKeeperErrorView,
> {
    match link_wire(hash) {
        Ok(encoded) => decoded(encoded, secret),
        Err(e) => Err(e),
    }
}

/// The subject that a link names: the one that its wire string names in its header.
pub open spec fn link_subject(hash: Seq<char>) -> Result<SubjectId, GateKeeperErrorView> {
    match link_wire(hash) {
        Ok(encoded) => token_subject(encoded),
        Err(e) => Err(e),
    }
}

/// A link leads back to the owner of its token and, under the owner's secret, to the token.
/// That holds of every link that reads back to the token's wire string, as the link form of
/// a token does, and of every token whose header names the owner and that decodes to itself
/// under the secret, as an issued token does.
pub proof fn lemma_link_leads_back(
    hash: Seq<char>,
    token: TokenView,
    owner: SubjectId,
    secret: Seq<char>,
)
    requires
        link_wire(hash) == Ok::<_, GateKeeperErrorView>(token.encoded),
        token_subject(token.encoded) == Ok::<_, GateKeeperErrorView>(owner),
        decoded(token.encoded, secret) == Ok::<_, GateKeeperErrorView>(token),
    ensures
        link_subject(hash) == Ok::<_, GateKeeperErrorView>(owner),
        link_token(hash, secret) == Ok::<_, GateKeeperErrorView>(token),
{
}

/// A text is read back unchanged from the link form of its UTF-8 bytes, once base64 has
/// given those bytes back.
pub proof fn lemma_link_outcome_of_text(encoded: Seq<char>)
    ensures
        link_outcome(Ok(encode_utf8(encoded))) == Ok::<_, GateKeeperErrorView>(encoded),
{
    encode_utf8_valid_utf8(encoded);
    encode_utf8_decode_utf8(encoded);
}

impl VerificationToken {
    /// Whether the token can be written in the form that goes into a link.
    pub fn fits_in_link(&self) -> (fits: bool)
        ensures
            fits == link_fits(self@.encoded),
    {
        let bytes = self.encoded.as_str().as_bytes();
        let groups: usize = bytes.len() / 3;
        groups <= (usize::MAX - 4) / 4
    }

    /// The token in the form that goes into a link. Reading the link gives the wire string
    /// back unchanged.
    ///
    /// The length of the link has to fit in `usize`, which `fits_in_link` tests.
    pub fn try_as_base64(&self) -> (r: GateKeeperResult<String>)
        requires
            link_fits(self@.encoded),
        ensures
            outcome(r) == Ok::<_, GateKeeperErrorView>(link_text(self@.encoded)),
            r matches Ok(hash) ==> link_wire(hash@) == Ok::<_, GateKeeperErrorView>(
                self@.encoded,
            ),
    {
        let hash = base64_url_encode(self.encoded.as_str().as_bytes());
        proof {
            lemma_link_outcome_of_text(self@.encoded);
        }
        Ok(hash)
    }

    /// Turns the base64 decoder's answer into the wire string of a link.
    pub fn wire_from_bytes(bytes: Result<Vec<u8>, String>) -> (r: GateKeeperResult<String>)
        ensures
            outcome(r) == link_outcome(answer_view(bytes)),
    {
        let bytes = match bytes {
            Ok(bytes) => bytes,
            Err(detail) => {
                return Err(GateKeeperError::Token(TokenError::Base64Decode(detail)));
            },
        };
        match string_from_utf8(bytes) {
            Ok(encoded) => Ok(encoded),
            Err(detail) => Err(GateKeeperError::Token(TokenError::Utf8(detail))),
        }
    }

    /// Reads the wire string from a link. Nothing is verified yet: the wire string tells
    /// whose secret to decode it with.
    pub fn try_wire_from_base64(hash: &str) -> (r: GateKeeperResult<String>)
        ensures
            outcome(r) == link_wire(hash@),
    {
        let bytes = base64_url_decode(hash);
        Self::wire_from_bytes(bytes)
    }

    /// Reads the token from a link and verifies it with `secret`.
    pub fn try_from_base64(hash: &str, secret: &String) -> (r: GateKeeperResult<Self>)
        ensures
            outcome(r) == link_token(hash@, secret@),
    {
        match Self::try_wire_from_base64(hash) {
            Ok(encoded) => Self::decode(encoded, secret),
            Err(e) => Err(e),
        }
    }
}

impl Token for VerificationToken {
    const EXPIRE_SECS_VAR: &'static str = "VERIFICATION_EXPIRE_SECS";

    fn new(encoded: String, claims: Claims) -> (token: Self) {
        Self { encoded, claims }
    }

    fn get_claims(&self) -> (claims: &Claims) {
        &self.claims
    }

    fn get_encoded(&self) -> (encoded: &String) {
        &self.encoded
    }
}

} // verus!

//! Tokens: the claims they sign, what issuing, encoding and decoding yield, and the trait that
//! the three kinds of token share.

pub mod authentication_token;
pub mod duration;
pub mod error;
pub mod refresh_token;
pub mod service;
pub mod verification_token;

pub use authentication_token::AuthenticationToken;
pub use error::{TokenError, TokenErrorResponse, TokenErrorResponseBuilder, TokenErrorView};
pub use refresh_token::RefreshToken;
pub use service::TokenService;
pub use verification_token::VerificationToken;

use crate::error::{GateKeeperError, GateKeeperErrorView};
use crate::model::{GateKeeperModel, SubjectId};
use crate::trusted::{
    answer_view, header_key_id, hs512_payload, hs512_token, key_id_view, sign_hs512, text_view,
    unix_timestamp_now, uuid_text, verify_hs512, PayloadFields, PayloadFieldsView,
};
use crate::{ErrorPayload, GateKeeperResult, UNAUTHORIZED};
use duration::{parse_expire_secs, parse_seconds};
use service::token_subject;
use vstd::prelude::*;

verus! {

/// The mathematical content of a claim set.
pub struct ClaimsView {
    pub exp: nat,
    pub iat: nat,
    pub sub: Seq<char>,
}

/// The signed payload of a token: the subject, the time of issue and the time of expiry, both
/// in seconds since the Unix epoch.
#[derive(Debug, Clone, PartialEq, Eq)]
pub struct Claims {
    pub exp: usize,
    pub iat: usize,
    pub sub: String,
}

impl View for Claims {
    type V = ClaimsView;

    open spec fn view(&self) -> ClaimsView {
        ClaimsView { exp: self.exp as nat, iat: self.iat as nat, sub: self.sub@ }
    }
}

/// The mathematical content of a token: the wire string and the claims it stands for.
pub struct TokenView {
    pub encoded: Seq<char>,
    pub claims: ClaimsView,
}

/// The mathematical content of a token's header.
pub struct HeaderView {
    pub kid: Option<Seq<char>>,
}

/// What the header of a token tells before anything is verified: whose secret to try.
/// It is read without a secret and proves nothing about the token.
#[derive(Debug, Clone, PartialEq, Eq)]
pub struct Header {
    /// The key identifier: the subject that the token names as its owner.
    pub kid: Option<String>,
}

impl View for Header {
    type V = HeaderView;

    open spec fn view(&self) -> HeaderView {
        HeaderView { kid: text_view(self.kid) }
    }
}

/// A result by its content.
pub open spec fn outcome<T: View>(result: Result<T, GateKeeperError>) -> Result<
    T::V,
    GateKeeperErrorView,
> {
    match result {
        Ok(value) => Ok(value@),
        Err(e) => Err(e@),
    }
}

/// The view of an optional text slice.
pub open spec fn str_view(text: Option<&str>) -> Option<Seq<char>> {
    match text {
        Some(s) => Some(s@),
        None => None,
    }
}

/// The payload of a token failure: the unauthorized status and a message.
pub open spec fn unauthorized(message: Seq<char>) -> ErrorPayload {
    ErrorPayload { status_code: UNAUTHORIZED, message }
}

/// The failure to sign a claim set.
pub open spec fn encode_failure() -> GateKeeperErrorView {
    GateKeeperErrorView::Token(TokenErrorView::Encode(unauthorized("Couldn't encode token claims"@)))
}

/// The failure to decode a wire string: the signature does not match, or the wire string or
/// its payload is malformed. Which of these it was is told by `detail`, for the logs.
pub open spec fn decode_failure(detail: Seq<char>) -> GateKeeperErrorView {
    GateKeeperErrorView::Token(
        TokenErrorView::Decode(unauthorized("Couldn't decode token claims"@), detail),
    )
}

/// What is said of a payload that was verified but does not hold the three claims.
pub open spec fn no_claim_set() -> Seq<char> {
    "the payload is not a claim set with exp, iat and sub"@
}

/// The failure to read the header of a wire string, with what the reader said of it.
pub open spec fn header_failure(detail: Seq<char>) -> GateKeeperErrorView {
    GateKeeperErrorView::Token(
        TokenErrorView::DecodeHeader(unauthorized("Error decoding token headers"@), detail),
    )
}

/// Whether a token that expires at `exp` has expired at the instant `now`. A token is still
/// good in the second in which it expires.
pub open spec fn expired_at(exp: nat, now: nat) -> bool {
    exp < now
}

/// What signing makes of the signer's answer: the wire string, or the failure to encode.
pub open spec fn signing_outcome(signed: Option<Seq<char>>) -> Result<
    Seq<char>,
    GateKeeperErrorView,
> {
    match signed {
        Some(token) => Ok(token),
        None => Err(encode_failure()),
    }
}

/// The wire string of a claim set under a secret: an HS512 token over the three claims whose
/// header names the subject as the key.
pub open spec fn wire_string(claims: ClaimsView, secret: Seq<char>) -> Result<
    Seq<char>,
    GateKeeperErrorView,
> {
    signing_outcome(hs512_token(claims.sub, claims.exp, claims.iat, claims.sub, secret))
}

/// The claim set that a verified payload holds: all three claims are there, and the two
/// times fit in `usize`.
pub open spec fn payload_claims(payload: PayloadFieldsView) -> Option<ClaimsView> {
    match (payload.exp, payload.iat, payload.sub) {
        (Some(exp), Some(iat), Some(sub)) => if exp <= usize::MAX && iat <= usize::MAX {
            Some(ClaimsView { exp: exp as nat, iat: iat as nat, sub })
        } else {
            None
        },
        _ => None,
    }
}

/// What decoding makes of the verifier's answer: the token, where the signature held and the
/// payload is a claim set, and the failure to decode otherwise.
pub open spec fn verification_outcome(
    encoded: Seq<char>,
    payload: Result<PayloadFieldsView, Seq<char>>,
) -> Result<TokenView, GateKeeperErrorView> {
    match payload {
        Ok(fields) => match payload_claims(fields) {
            Some(claims) => Ok(TokenView { encoded, claims }),
            None => Err(decode_failure(no_claim_set())),
        },
        Err(detail) => Err(decode_failure(detail)),
    }
}

/// The token that a wire string stands for under a secret. Whether the token has expired
/// plays no part in it.
pub open spec fn decoded(encoded: Seq<char>, secret: Seq<char>) -> Result<
    TokenView,
    GateKeeperErrorView,
> {
    verification_outcome(encoded, hs512_payload(encoded, secret))
}

/// What reading a header makes of the reader's answer.
pub open spec fn header_outcome(kid: Result<Option<Seq<char>>, Seq<char>>) -> Result<
    HeaderView,
    GateKeeperErrorView,
> {
    match kid {
        Ok(kid) => Ok(HeaderView { kid }),
        Err(detail) => Err(header_failure(detail)),
    }
}

/// The header of a wire string, read without any secret.
pub open spec fn headers(encoded: Seq<char>) -> Result<HeaderView, GateKeeperErrorView> {
    header_outcome(header_key_id(encoded))
}

/// The number of seconds that the configuration states as a duration. There is none where
/// the value is not configured, and none where it is no number of seconds.
pub open spec fn configured_seconds(expire_secs: Option<Seq<char>>) -> Result<
    usize,
    GateKeeperErrorView,
> {
    match expire_secs {
        None => Err(GateKeeperErrorView::EnvVar),
        Some(text) => match parse_seconds(text) {
            None => Err(GateKeeperErrorView::ParseInt),
            Some(duration) => Ok(duration),
        },
    }
}

/// The token issued to `subject` at the instant `now` for `duration` seconds, signed with
/// `secret`. There is none where the expiry would not fit in `usize`.
pub open spec fn issued_for(subject: Seq<char>, secret: Seq<char>, now: nat, duration: nat) -> Result<
    TokenView,
    GateKeeperErrorView,
> {
    if now + duration > usize::MAX {
        Err(GateKeeperErrorView::ParseInt)
    } else {
        let claims = ClaimsView { exp: now + duration, iat: now, sub: subject };
        match wire_string(claims, secret) {
            Ok(token) => Ok(TokenView { encoded: token, claims }),
            Err(e) => Err(e),
        }
    }
}

/// The token issued to `subject` at the instant `now`, signed with `secret`, where the
/// configuration states the duration as `expire_secs`.
///
/// It fails where the duration is not configured, where it is no number of seconds, and
/// where the expiry would not fit in `usize`.
pub open spec fn issued(
    subject: Seq<char>,
    secret: Seq<char>,
    now: nat,
    expire_secs: Option<Seq<char>>,
) -> Result<TokenView, GateKeeperErrorView> {
    match configured_seconds(expire_secs) {
        Ok(duration) => issued_for(subject, secret, now, duration as nat),
        Err(e) => Err(e),
    }
}

/// Reads the duration that the configuration states.
pub fn configured_duration(expire_secs: Option<&str>) -> (r: GateKeeperResult<usize>)
    ensures
        outcome(r) == configured_seconds(str_view(expire_secs)),
{
    match expire_secs {
        None => Err(GateKeeperError::EnvVar),
        Some(text) => match parse_expire_secs(text) {
            None => Err(GateKeeperError::ParseInt),
            Some(duration) => Ok(duration),
        },
    }
}

/// The failure to encode.
pub fn encode_error() -> (e: GateKeeperError)
    ensures
        e@ == encode_failure(),
{
    let response = TokenErrorResponse::build().message(
        String::from_str("Couldn't encode token claims"),
    ).build();
    GateKeeperError::Token(TokenError::Encode(response))
}

/// The failure to decode, with what there is to log of it.
pub fn decode_error(detail: String) -> (e: GateKeeperError)
    ensures
        e@ == decode_failure(detail@),
{
    let response = TokenErrorResponse::build().message(
        String::from_str("Couldn't decode token claims"),
    ).build();
    GateKeeperError::Token(TokenError::Decode(response, detail))
}

/// The failure to read a header, with what there is to log of it.
pub fn header_error(detail: String) -> (e: GateKeeperError)
    ensures
        e@ == header_failure(detail@),
{
    let response = TokenErrorResponse::build().message(
        String::from_str("Error decoding token headers"),
    ).build();
    GateKeeperError::Token(TokenError::DecodeHeader(response, detail))
}

/// Turns the signer's answer into the result of encoding.
pub fn encode_result(signed: Option<String>) -> (r: GateKeeperResult<String>)
    ensures
        outcome(r) == signing_outcome(text_view(signed)),
{
    match signed {
        Some(token) => Ok(token),
        None => Err(encode_error()),
    }
}

/// Turns a verified payload into a claim set.
pub fn claims_from_payload(payload: PayloadFields) -> (claims: Option<Claims>)
    ensures
        match claims {
            Some(c) => payload_claims(payload@) == Some(c@),
            None => payload_claims(payload@) is None,
        },
{
    match (payload.exp, payload.iat, payload.sub) {
        (Some(exp), Some(iat), Some(sub)) => {
            if exp <= usize::MAX as u64 && iat <= usize::MAX as u64 {
                Some(Claims { exp: exp as usize, iat: iat as usize, sub })
            } else {
                None
            }
        },
        _ => None,
    }
}

/// Turns the header reader's answer into the result of reading a header.
pub fn header_result(kid: Result<Option<String>, String>) -> (r: GateKeeperResult<Header>)
    ensures
        outcome(r) == header_outcome(key_id_view(kid)),
{
    match kid {
        Ok(kid) => Ok(Header { kid }),
        Err(detail) => Err(header_error(detail)),
    }
}

/// The instant that a clock reading stands for, in whole seconds since the Unix epoch: a
/// reading before the epoch counts as the epoch itself, and one beyond `usize::MAX` as
/// `usize::MAX`.
pub open spec fn timestamp_of_reading(reading: int) -> nat {
    if reading < 0 {
        0
    } else if reading > usize::MAX {
        usize::MAX as nat
    } else {
        reading as nat
    }
}

/// Turns a clock reading into an instant.
pub fn timestamp_from_reading(reading: i64) -> (seconds: usize)
    ensures
        seconds == timestamp_of_reading(reading as int),
{
    if reading < 0 {
        0
    } else if reading as u64 > usize::MAX as u64 {
        usize::MAX
    } else {
        reading as usize
    }
}

/// Reads the clock: the instant of `timestamp_from_reading` for what the clock reads. Of the
/// reading itself nothing is known, so nothing of the instant but that it is one of a
/// reading.
pub fn current_timestamp() -> (seconds: usize)
    ensures
        seconds <= i64::MAX,
{
    timestamp_from_reading(unix_timestamp_now())
}

/// The three ways in which a token fails to be made or read are told apart by their kind,
/// whatever is said of the fault.
pub proof fn lemma_failures_are_distinct(detail: Seq<char>, other: Seq<char>)
    ensures
        encode_failure() != decode_failure(detail),
        decode_failure(detail) != header_failure(other),
        header_failure(other) != encode_failure(),
{
}

/// Expiry is strict: a token has expired once the instant lies behind its expiry, and is
/// still good before it and in the very second of it.
pub proof fn lemma_expiry_is_strict(exp: nat, now: nat)
    ensures
        exp < now ==> expired_at(exp, now),
        exp == now ==> !expired_at(exp, now),
        exp > now ==> !expired_at(exp, now),
{
}

/// Decoding fails in one way only, whatever the wire string and the secret: with the failure
/// to decode. It does so wherever the verifier refuses the signature or the structure, and
/// then tells what the verifier said.
pub proof fn lemma_decoding_fails_as_decode_failure(encoded: Seq<char>, secret: Seq<char>)
    ensures
        decoded(encoded, secret) matches Err(e) ==> exists|detail: Seq<char>|
            e == #[trigger] decode_failure(detail),
        hs512_payload(encoded, secret) matches Err(detail) ==> decoded(encoded, secret) == Err::<
            TokenView,
            _,
        >(decode_failure(detail)),
        decoded(encoded, secret) matches Ok(token) ==> token.encoded == encoded,
{
    match hs512_payload(encoded, secret) {
        Ok(fields) => {
            if payload_claims(fields) is None {
                assert(decoded(encoded, secret) == Err::<TokenView, _>(
                    decode_failure(no_claim_set()),
                ));
            }
        },
        Err(detail) => {
            assert(decoded(encoded, secret) == Err::<TokenView, _>(decode_failure(detail)));
        },
    }
}

/// The claims of an issued token: they name the subject, start at the instant of issue and
/// end the configured number of seconds later, so never before they start; and the wire
/// string is the claims' encoding under the secret.
pub proof fn lemma_issued_claims(
    subject: Seq<char>,
    secret: Seq<char>,
    now: nat,
    expire_secs: Seq<char>,
)
    ensures
        issued(subject, secret, now, Some(expire_secs)) matches Ok(token) ==> {
            &&& parse_seconds(expire_secs) matches Some(duration)
            &&& token.claims.sub == subject
            &&& token.claims.iat == now
            &&& token.claims.exp == now + duration
            &&& token.claims.exp >= token.claims.iat
            &&& token.claims.exp <= usize::MAX
            &&& wire_string(token.claims, secret) == Ok::<_, GateKeeperErrorView>(token.encoded)
        },
{
}

/// What every kind of token can do. The kinds differ in the configuration value that states
/// their duration, and in the transport forms they add.
pub trait Token: Sized + View<V = TokenView> {
    /// The name of the configuration value that states how many seconds a token of this kind
    /// is good for.
    const EXPIRE_SECS_VAR: &'static str = "AUTH_EXPIRE_SECS";

    /// Puts a wire string and its claims together. Nothing is checked.
    fn new(encoded: String, claims: Claims) -> (token: Self)
        ensures
            token@ == (TokenView { encoded: encoded@, claims: claims@ }),
    ;

    /// Issues a token to `subject` at the instant `now` for `duration` seconds: the claims run
    /// from `now` to `now + duration` and are signed with `secret`. It succeeds wherever the
    /// expiry fits in `usize`.
    fn try_new_lasting(subject: String, secret: String, now: usize, duration: usize) -> (r:
        GateKeeperResult<Self>)
        ensures
            outcome(r) == issued_for(subject@, secret@, now as nat, duration as nat),
            r is Ok <==> now + duration <= usize::MAX,
            r matches Ok(token) ==> decoded(token@.encoded, secret@) == Ok::<
                _,
                GateKeeperErrorView,
            >(token@),
            r matches Ok(token) ==> headers(token@.encoded) == Ok::<_, GateKeeperErrorView>(
                HeaderView { kid: Some(subject@) },
            ),
    {
        let exp = match now.checked_add(duration) {
            Some(exp) => exp,
            None => {
                return Err(GateKeeperError::ParseInt);
            },
        };
        let claims = Claims { exp, iat: now, sub: subject };
        match Self::encode(&claims, secret) {
            Ok(encoded) => Ok(Self::new(encoded, claims)),
            Err(e) => Err(e),
        }
    }

    /// Issues a token to `subject` at the instant `now`, for the duration that the
    /// configuration states as `expire_secs`. It succeeds wherever that is a number of
    /// seconds and the expiry fits in `usize`.
    fn try_new_at(subject: String, secret: String, now: usize, expire_secs: Option<&str>) -> (r:
        GateKeeperResult<Self>)
        ensures
            outcome(r) == issued(subject@, secret@, now as nat, str_view(expire_secs)),
            r is Ok <==> (configured_seconds(str_view(expire_secs)) matches Ok(duration) && now
                + duration <= usize::MAX),
            r matches Ok(token) ==> decoded(token@.encoded, secret@) == Ok::<
                _,
                GateKeeperErrorView,
            >(token@),
            r matches Ok(token) ==> headers(token@.encoded) == Ok::<_, GateKeeperErrorView>(
                HeaderView { kid: Some(subject@) },
            ),
    {
        match configured_duration(expire_secs) {
            Ok(duration) => Self::try_new_lasting(subject, secret, now, duration),
            Err(e) => Err(e),
        }
    }

    /// Issues a token to `user` now, where `expire_secs` is what the configuration holds
    /// under `EXPIRE_SECS_VAR`. The user is asked only where the configuration states a
    /// duration.
    ///
    /// The user's answers and the clock decide the claims: the result is what `try_new_at`
    /// gives for some identifier, some secret and some instant. A token that comes of it
    /// decodes under that secret to itself, and its header names that identifier.
    fn try_new_for_user<M: GateKeeperModel>(user: &M, expire_secs: Option<&str>) -> (r:
        GateKeeperResult<Self>)
        ensures
            exists|id: u128, secret: Seq<char>, now: nat|
                {
                    &&& now <= i64::MAX
                    &&& outcome(r) == #[trigger] issued(
                        uuid_text(id),
                        secret,
                        now,
                        str_view(expire_secs),
                    )
                    &&& r matches Ok(token) ==> {
                        &&& decoded(token@.encoded, secret) == Ok::<_, GateKeeperErrorView>(
                            token@,
                        )
                        &&& token_subject(token@.encoded) == Ok::<_, GateKeeperErrorView>(
                            SubjectId { value: id },
                        )
                    }
                },
            configured_seconds(str_view(expire_secs)) matches Err(e) ==> outcome(r) == Err::<
                TokenView,
                _,
            >(e),
    {
        let iat = current_timestamp();
        let duration = match configured_duration(expire_secs) {
            Ok(duration) => duration,
            Err(e) => {
                proof {
                    let unasked = issued(uuid_text(0), Seq::empty(), 0, str_view(expire_secs));
                    assert(unasked == Err::<TokenView, _>(e@));
                }
                return Err(e);
            },
        };
        let id = user.id();
        let subject = id.to_text();
        let secret = String::from_str(user.secret());
        let r = Self::try_new_lasting(subject, secret, iat, duration);
        proof {
            assert(outcome(r) == issued(
                uuid_text(id.value),
                secret@,
                iat as nat,
                str_view(expire_secs),
            ));
        }
        r
    }

    /// Signs `claims` with `secret`. Every claim set can be signed with every secret.
    ///
    /// The wire string decodes under the same secret to the same claims, and its header,
    /// read without any secret, names the subject of the claims.
    fn encode(claims: &Claims, secret: String) -> (r: GateKeeperResult<String>)
        ensures
            outcome(r) == wire_string(claims@, secret@),
            r is Ok,
            r matches Ok(token) ==> decoded(token@, secret@) == Ok::<_, GateKeeperErrorView>(
                TokenView { encoded: token@, claims: claims@ },
            ),
            r matches Ok(token) ==> headers(token@) == Ok::<_, GateKeeperErrorView>(
                HeaderView { kid: Some(claims@.sub) },
            ),
    {
        let signed = sign_hs512(
            claims.sub.as_str(),
            claims.exp,
            claims.iat,
            claims.sub.as_str(),
            secret.as_str(),
        );
        encode_result(signed)
    }

    /// Turns the verifier's answer for `encoded` into the result of decoding.
    fn decode_result(encoded: String, payload: Result<PayloadFields, String>) -> (r:
        GateKeeperResult<Self>)
        ensures
            outcome(r) == verification_outcome(encoded@, answer_view(payload)),
    {
        let fields = match payload {
            Ok(fields) => fields,
            Err(detail) => {
                return Err(decode_error(detail));
            },
        };
        match claims_from_payload(fields) {
            Some(claims) => Ok(Self::new(encoded, claims)),
            None => Err(
                decode_error(String::from_str("the payload is not a claim set with exp, iat and sub")),
            ),
        }
    }

    /// Verifies the signature of `encoded` with `secret` and reads the claims. An expired
    /// token decodes like any other: see `is_expired`.
    fn decode(encoded: String, secret: &String) -> (r: GateKeeperResult<Self>)
        ensures
            outcome(r) == decoded(encoded@, secret@),
    {
        let payload = verify_hs512(encoded.as_str(), secret.as_str());
        Self::decode_result(encoded, payload)
    }

    /// Whether the token has expired at the instant `now`.
    fn is_expired_at(&self, now: usize) -> (expired: bool)
        ensures
            expired == expired_at(self@.claims.exp, now as nat),
    {
        self.get_claims().exp < now
    }

    /// Whether the token has expired by the clock: the answer of `is_expired_at` for the
    /// instant at which the clock is read. No clock reads beyond `i64::MAX`, so a token that
    /// expires there or later never has.
    fn is_expired(&self) -> (expired: bool)
        ensures
            exists|now: nat|
                now <= i64::MAX && expired == #[trigger] expired_at(self@.claims.exp, now),
            self@.claims.exp >= i64::MAX ==> !expired,
    {
        let now = current_timestamp();
        self.is_expired_at(now)
    }

    fn get_claims(&self) -> (claims: &Claims)
        ensures
            claims@ == self@.claims,
    ;

    fn get_encoded(&self) -> (encoded: &String)
        ensures
            encoded@ == self@.encoded,
    ;

    /// Reads the header of the wire string. No secret is needed and nothing is verified: the
    /// header only tells whose secret to try.
    fn get_headers(&self) -> (r: GateKeeperResult<Header>)
        ensures
            outcome(r) == headers(self@.encoded),
    {
        TokenService::get_token_headers_from_encoded(self.get_encoded().clone())
    }
}

} // verus!

//! The boundary to the crates that sign, encode, format and tell the time.
//!
//! Every function here is a thin call into another crate. Its body is not verified: the
//! contract above it is what the rest of the library builds on, and each doc comment says
//! what that contract takes on trust.

use vstd::prelude::*;
use vstd::utf8::{decode_utf8, valid_utf8};

verus! {

/// The view of an optional text.
pub open spec fn text_view(text: Option<String>) -> Option<Seq<char>> {
    match text {
        Some(s) => Some(s@),
        None => None,
    }
}

/// The three claims of a verified payload, each as far as the payload holds it in the
/// expected form: `exp` and `iat` as non-negative integers, `sub` as a string.
pub struct PayloadFields {
    pub exp: Option<u64>,
    pub iat: Option<u64>,
    pub sub: Option<String>,
}

pub struct PayloadFieldsView {
    pub exp: Option<u64>,
    pub iat: Option<u64>,
    pub sub: Option<Seq<char>>,
}

impl View for PayloadFields {
    type V = PayloadFieldsView;

    open spec fn view(&self) -> PayloadFieldsView {
        PayloadFieldsView { exp: self.exp, iat: self.iat, sub: text_view(self.sub) }
    }
}

/// The view of what another crate answers: a value, or the text in which the crate describes
/// its error. The text is for the logs; nothing is decided by it.
pub open spec fn answer_view<T: View>(answer: Result<T, String>) -> Result<T::V, Seq<char>> {
    match answer {
        Ok(value) => Ok(value@),
        Err(detail) => Err(detail@),
    }
}

/// An answer that is a value and no error.
pub open spec fn answered<V>(value: V) -> Result<V, Seq<char>> {
    Ok(value)
}

/// The view of what the header reader answers.
pub open spec fn key_id_view(answer: Result<Option<String>, String>) -> Result<
    Option<Seq<char>>,
    Seq<char>,
> {
    match answer {
        Ok(kid) => Ok(text_view(kid)),
        Err(detail) => Err(detail@),
    }
}

/// The compact HS512 token that `jsonwebtoken::encode` makes of a header with key identifier
/// `kid` and of the claims `exp`, `iat` and `sub`, signed with `secret`; `None` where it
/// reports an error.
pub uninterp spec fn hs512_token(
    kid: Seq<char>,
    exp: nat,
    iat: nat,
    sub: Seq<char>,
    secret: Seq<char>,
) -> Option<Seq<char>>;

/// The claims that `jsonwebtoken::decode` hands back for `encoded` under `secret`, with the
/// HS512 algorithm and without a check of the expiry time; where it reports an error, the
/// text in which it displays the error.
pub uninterp spec fn hs512_payload(encoded: Seq<char>, secret: Seq<char>) -> Result<
    PayloadFieldsView,
    Seq<char>,
>;

/// The key identifier in the header that `jsonwebtoken::decode_header` reads from `encoded`,
/// `None` where the header names no key; where it reports an error, the text in which it
/// displays the error.
pub uninterp spec fn header_key_id(encoded: Seq<char>) -> Result<Option<Seq<char>>, Seq<char>>;

/// The padded URL-safe base64 text that the `base64` crate makes of `bytes`.
pub uninterp spec fn base64_url_text(bytes: Seq<u8>) -> Seq<char>;

/// The bytes that the `base64` crate reads from the padded URL-safe base64 `text`; where it
/// reports an error, the text in which it displays the error.
pub uninterp spec fn base64_url_bytes(text: Seq<char>) -> Result<Seq<u8>, Seq<char>>;

/// The text in which `String::from_utf8` displays its error for `bytes`.
pub uninterp spec fn utf8_error_text(bytes: Seq<u8>) -> Seq<char>;

/// The text in which the `uuid` crate displays the identifier with the 128-bit `value`.
pub uninterp spec fn uuid_text(value: u128) -> Seq<char>;

/// The 128-bit value of the identifier that the `uuid` crate parses from `text`; where it
/// reports an error, the text in which it displays the error.
pub uninterp spec fn uuid_value(text: Seq<char>) -> Result<u128, Seq<char>>;

/// The compact JSON text in which `serde_json` writes an object of two members: `number`
/// under `number_key` and `text` under `text_key`.
pub uninterp spec fn json_object_text(
    number_key: Seq<char>,
    number: u16,
    text_key: Seq<char>,
    text: Seq<char>,
) -> Seq<char>;

/// The earliest Unix timestamp that stands for a date in every build of the `time` crate:
/// midnight of 1 January of the year -9999, UTC.
pub const MIN_DATE_TIMESTAMP: i64 = -377_705_116_800;

/// The latest Unix timestamp that stands for a date in every build of the `time` crate: the
/// last second of the year 9999, UTC.
pub const MAX_DATE_TIMESTAMP: i64 = 253_402_300_799;

/// Reads the system clock with `std::time::SystemTime::now` and has `chrono` convert it to
/// whole seconds since the Unix epoch, through `DateTime::<Utc>::from` and `timestamp`.
///
/// Nothing is claimed of the reading: it is the clock's, and two readings may differ in any
/// way. A clock that stands before the epoch gives a negative reading. The conversion gives
/// up only on a clock beyond the dates that `chrono` holds, some 262,000 years either side
/// of the epoch.
#[verifier::external_body]
pub(crate) fn unix_timestamp_now() -> (seconds: i64) {
    chrono::DateTime::<chrono::Utc>::from(std::time::SystemTime::now()).timestamp()
}

/// Calls `jsonwebtoken::encode` with an HS512 header that carries `kid` and with the claims
/// `exp`, `iat` and `sub` as a JSON object, signed with `secret`.
///
/// Trusted: the outcome is a function of the arguments; it is a token, since the crate
/// reports an error only for a key of another family than the algorithm's, for a header or
/// claims that do not serialize, and from algorithms other than HMAC; a token that it makes
/// verifies under the same secret to the same three claims; and the header of that token,
/// read without any secret, names `kid`.
#[verifier::external_body]
pub(crate) fn sign_hs512(kid: &str, exp: usize, iat: usize, sub: &str, secret: &str) -> (signed:
    Option<String>)
    ensures
        text_view(signed) == hs512_token(kid@, exp as nat, iat as nat, sub@, secret@),
        signed is Some,
        signed matches Some(token) ==> hs512_payload(token@, secret@) == answered(
            PayloadFieldsView { exp: Some(exp as u64), iat: Some(iat as u64), sub: Some(sub@) },
        ),
        signed matches Some(token) ==> header_key_id(token@) == answered(Some(kid@)),
{
    let mut header = jsonwebtoken::Header::new(jsonwebtoken::Algorithm::HS512);
    header.kid = Some(kid.to_owned());
    let mut claims = serde_json::Map::new();
    claims.insert("exp".to_owned(), serde_json::Value::from(exp));
    claims.insert("iat".to_owned(), serde_json::Value::from(iat));
    claims.insert("sub".to_owned(), serde_json::Value::from(sub));
    let key = jsonwebtoken::EncodingKey::from_secret(secret.as_bytes());
    jsonwebtoken::encode(&header, &claims, &key).ok()
}

/// Calls `jsonwebtoken::decode` on `encoded` with the key `secret`, accepting HS512 only and
/// leaving the expiry time unchecked, and picks `exp`, `iat` and `sub` from the payload; an
/// error is handed on as the text in which the crate displays it.
///
/// Trusted: the outcome is a function of the two arguments.
#[verifier::external_body]
pub(crate) fn verify_hs512(encoded: &str, secret: &str) -> (payload: Result<PayloadFields, String>)
    ensures
        answer_view(payload) == hs512_payload(encoded@, secret@),
{
    let mut validation = jsonwebtoken::Validation::new(jsonwebtoken::Algorithm::HS512);
    validation.validate_exp = false;
    let key = jsonwebtoken::DecodingKey::from_secret(secret.as_bytes());
    match jsonwebtoken::decode::<serde_json::Value>(encoded, &key, &validation) {
        Ok(data) => Ok(PayloadFields {
            exp: data.claims.get("exp").and_then(|v| v.as_u64()),
            iat: data.claims.get("iat").and_then(|v| v.as_u64()),
            sub: data.claims.get("sub").and_then(|v| v.as_str()).map(|s| s.to_owned()),
        }),
        Err(e) => Err(e.to_string()),
    }
}

/// Calls `jsonwebtoken::decode_header` on `encoded` and picks the key identifier; an error
/// is handed on as the text in which the crate displays it.
///
/// Trusted: the outcome is a function of the argument.
#[verifier::external_body]
pub(crate) fn read_header_key_id(encoded: &str) -> (kid: Result<Option<String>, String>)
    ensures
        key_id_view(kid) == header_key_id(encoded@),
{
    match jsonwebtoken::decode_header(encoded) {
        Ok(header) => Ok(header.kid),
        Err(e) => Err(e.to_string()),
    }
}

/// Calls `encode` of the `base64` crate's padded URL-safe engine.
///
/// Trusted: the text is a function of the bytes, and the same engine reads the bytes back
/// from it. The crate panics where the length of the text does not fit in `usize`, which
/// `requires` leaves out.
#[verifier::external_body]
pub(crate) fn base64_url_encode(bytes: &[u8]) -> (text: String)
    requires
        (bytes@.len() / 3) * 4 + 4 <= usize::MAX,
    ensures
        text@ == base64_url_text(bytes@),
        base64_url_bytes(text@) == answered(bytes@),
{
    base64::Engine::encode(&base64::engine::general_purpose::URL_SAFE, bytes)
}

/// Calls `decode` of the `base64` crate's padded URL-safe engine; an error is handed on as
/// the text in which the crate displays it.
///
/// Trusted: the outcome is a function of the text.
#[verifier::external_body]
pub(crate) fn base64_url_decode(text: &str) -> (bytes: Result<Vec<u8>, String>)
    ensures
        answer_view(bytes) == base64_url_bytes(text@),
{
    match base64::Engine::decode(&base64::engine::general_purpose::URL_SAFE, text) {
        Ok(bytes) => Ok(bytes),
        Err(e) => Err(e.to_string()),
    }
}

/// Calls `String::from_utf8`; an error is handed on as the text in which it is displayed.
///
/// Trusted: it succeeds on valid UTF-8 and on nothing else, the string then holds the
/// characters that the bytes encode, and the text of the error is a function of the bytes.
#[verifier::external_body]
pub(crate) fn string_from_utf8(bytes: Vec<u8>) -> (text: Result<String, String>)
    ensures
        text is Ok <==> valid_utf8(bytes@),
        text matches Ok(s) ==> s@ == decode_utf8(bytes@),
        text matches Err(detail) ==> detail@ == utf8_error_text(bytes@),
{
    match String::from_utf8(bytes) {
        Ok(text) => Ok(text),
        Err(e) => Err(e.to_string()),
    }
}

/// Calls `Uuid::from_u128` and displays the identifier.
///
/// Trusted: the text is a function of the value, and `Uuid::parse_str` reads the value back
/// from it.
#[verifier::external_body]
pub(crate) fn uuid_format(value: u128) -> (text: String)
    ensures
        text@ == uuid_text(value),
        uuid_value(text@) == answered(value),
{
    uuid::Uuid::from_u128(value).to_string()
}

/// Calls `Uuid::parse_str` and takes the identifier's 128-bit value; an error is handed on as
/// the text in which the crate displays it.
///
/// Trusted: the outcome is a function of the text.
#[verifier::external_body]
pub(crate) fn uuid_parse(text: &str) -> (value: Result<u128, String>)
    ensures
        answer_view(value) == uuid_value(text@),
{
    match uuid::Uuid::parse_str(text) {
        Ok(id) => Ok(id.as_u128()),
        Err(e) => Err(e.to_string()),
    }
}

/// Calls `OffsetDateTime::from_unix_timestamp` of the `time` crate, as `cookie` exports it,
/// and reads the timestamp back from the date.
///
/// Trusted: a timestamp that falls in a year from -9999 to 9999 is accepted, and the date of
/// an accepted timestamp stands for that same second. Of a timestamp outside those years
/// nothing is claimed: the crate refuses it unless it is built for large dates.
#[verifier::external_body]
pub(crate) fn date_from_unix_timestamp(seconds: i64) -> (accepted: Option<i64>)
    ensures
        MIN_DATE_TIMESTAMP <= seconds <= MAX_DATE_TIMESTAMP ==> accepted is Some,
        accepted matches Some(second) ==> second == seconds,
{
    cookie::time::OffsetDateTime::from_unix_timestamp(seconds).ok().map(|date| date.unix_timestamp())
}

/// Builds a `serde_json` object of two members and writes it as compact JSON.
///
/// Trusted: the text is a function of the arguments.
#[verifier::external_body]
pub(crate) fn json_object(number_key: &str, number: u16, text_key: &str, text: &str) -> (json:
    String)
    ensures
        json@ == json_object_text(number_key@, number, text_key@, text@),
{
    let mut object = serde_json::Map::new();
    object.insert(number_key.to_owned(), serde_json::Value::from(number));
    object.insert(text_key.to_owned(), serde_json::Value::from(text));
    serde_json::Value::Object(object).to_string()
}

} // verus!

//! The refresh token and the cookie it travels in.

use crate::error::{GateKeeperError, GateKeeperErrorView};
use crate::tokens::{outcome, Claims, Token, TokenError, TokenErrorView, TokenView};
use crate::trusted::{date_from_unix_timestamp, MAX_DATE_TIMESTAMP};
use crate::GateKeeperResult;
use vstd::prelude::*;

verus! {

/// A long-lived token that renews a session. It travels in a cookie.
#[derive(Debug, Clone, PartialEq, Eq)]
pub struct RefreshToken {
    encoded: String,
    claims: Claims,
}

impl View for RefreshToken {
    type V = TokenView;

    closed spec fn view(&self) -> TokenView {
        TokenView { encoded: self.encoded@, claims: self.claims@ }
    }
}

/// To which requests a browser attaches a cookie.
#[derive(Debug, Clone, Copy, PartialEq, Eq)]
pub enum SameSite {
    /// To requests from the cookie's own site only.
    Strict,
    /// To those, and to navigations that lead to the site.
    Lax,
    /// To every request, from whatever site: the attribute `SameSite=None`.
    Unrestricted,
}

/// The mathematical content of a cookie.
pub struct RefreshCookieView {
    pub name: Seq<char>,
    pub value: Seq<char>,
    pub path: Seq<char>,
    pub expires: int,
    pub secure: bool,
    pub http_only: bool,
    pub same_site: SameSite,
}

/// The cookie that carries a refresh token, by its attributes.
#[derive(Debug, Clone, PartialEq, Eq)]
pub struct RefreshCookie {
    pub name: String,
    pub value: String,
    pub path: String,
    /// When the cookie expires, in seconds since the Unix epoch.
    pub expires: i64,
    pub secure: bool,
    pub http_only: bool,
    pub same_site: SameSite,
}

impl View for RefreshCookie {
    type V = RefreshCookieView;

    open spec fn view(&self) -> RefreshCookieView {
        RefreshCookieView {
            name: self.name@,
            value: self.value@,
            path: self.path@,
            expires: self.expires as int,
            secure: self.secure,
            http_only: self.http_only,
            same_site: self.same_site,
        }
    }
}

impl RefreshCookie {
    pub fn name(&self) -> (name: &str)
        ensures
            name@ == self@.name,
    {
        self.name.as_str()
    }

    pub fn value(&self) -> (value: &str)
        ensures
            value@ == self@.value,
    {
        self.value.as_str()
    }
}

/// The cookie of a refresh token: it is named `refresh_token`, holds the wire string, is
/// valid on every path, is sent over secure connections only, is hidden from scripts, goes
/// with requests from every site, and expires when the token does.
///
/// There is no such cookie where the token expires after the last second of the year 9999,
/// the last that a cookie's date can state.
pub open spec fn refresh_cookie(token: TokenView) -> Result<RefreshCookieView, GateKeeperErrorView> {
    if token.claims.exp <= MAX_DATE_TIMESTAMP {
        Ok(
            RefreshCookieView {
                name: "refresh_token"@,
                value: token.encoded,
                path: "/"@,
                expires: token.claims.exp as int,
                secure: true,
                http_only: true,
                same_site: SameSite::Unrestricted,
            },
        )
    } else {
        Err(GateKeeperErrorView::Token(TokenErrorView::ReadingExpiration(token.claims.exp)))
    }
}

impl RefreshToken {
    /// Makes the cookie that carries the token. An expiry that no date can state is reported,
    /// never cut down to one that can.
    pub fn try_as_cookie(&self) -> (r: GateKeeperResult<RefreshCookie>)
        ensures
            outcome(r) == refresh_cookie(self@),
    {
        let exp = self.claims.exp as u64;
        if exp > MAX_DATE_TIMESTAMP as u64 {
            return Err(GateKeeperError::Token(TokenError::ReadingExpiration(self.claims.exp)));
        }
        match date_from_unix_timestamp(exp as i64) {
            Some(expires) => Ok(
                RefreshCookie {
                    name: String::from_str("refresh_token"),
                    value: self.encoded.clone(),
                    path: String::from_str("/"),
                    expires,
                    secure: true,
                    http_only: true,
                    same_site: SameSite::Unrestricted,
                },
            ),
            None => Err(GateKeeperError::Token(TokenError::ReadingExpiration(self.claims.exp))),
        }
    }
}

impl Token for RefreshToken {
    const EXPIRE_SECS_VAR: &'static str = "REFRESH_EXPIRE_SECS";

    fn new(encoded: String, claims: Claims) -> (token: Self) {
        Self { encoded, claims }
    }

    fn get_claims(&self) -> (claims: &Claims) {
        &self.claims
    }

    fn get_encoded(&self) -> (encoded: &String) {
        &self.encoded
    }
}

} // verus!

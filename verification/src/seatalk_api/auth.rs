//! Credentials and the cached bearer token: expiry with a fixed safety skew,
//! the refresh decision, and the Authorization header value.

use vstd::prelude::*;

use super::api::access_token::GetAccessToken;

verus! {

/// Errors of the authentication layer.
#[derive(Debug)]
pub enum AuthError {
    /// No token is available where one is required.
    InvalidToken,
}

/// The safety margin added to the clock before comparing against a token's
/// expiry.
pub const EXPIRY_SKEW_SECONDS: u64 = 60;

/// A bearer token together with its expiry, in seconds since the epoch.
/// Replaced wholesale on refresh, never mutated in place.
#[derive(Debug, Clone)]
pub struct AccessToken {
    pub app_access_token: String,
    pub expire: u64,
}

impl AccessToken {
    /// Expired at `now_unix` exactly when now plus the skew reaches the
    /// expiry.
    pub open spec fn spec_is_expired(&self, now_unix: u64) -> bool {
        now_unix + EXPIRY_SKEW_SECONDS >= self.expire
    }

    /// Whether the token counts as expired at `now_unix` (seconds since the
    /// epoch).
    pub fn is_expired(&self, now_unix: u64) -> (r: bool)
        ensures
            r == self.spec_is_expired(now_unix),
    {
        if now_unix <= u64::MAX - EXPIRY_SKEW_SECONDS {
            now_unix + EXPIRY_SKEW_SECONDS >= self.expire
        } else {
            true
        }
    }

    /// The Authorization header value for this token. The transport must
    /// mark it sensitive before sending, so it never reaches a log.
    pub fn bearer_value(&self) -> (r: String)
        ensures
            r@ == ("Bearer ")@ + self.app_access_token@,
    {
        let mut s = ("Bearer ").to_owned();
        s.append(self.app_access_token.as_str());
        s
    }
}

/// Whether the cached token must be replaced before an authenticated call:
/// it is absent, or it is expired at `now_unix`.
pub open spec fn spec_needs_refresh(cached: Option<AccessToken>, now_unix: u64) -> bool {
    match cached {
        Option::None => true,
        Option::Some(t) => t.spec_is_expired(now_unix),
    }
}

/// The refresh decision for the cached token.
pub fn needs_refresh(cached: &Option<AccessToken>, now_unix: u64) -> (r: bool)
    ensures
        r == spec_needs_refresh(*cached, now_unix),
{
    match cached {
        Option::None => true,
        Option::Some(t) => t.is_expired(now_unix),
    }
}

/// The immutable application credentials.
#[derive(Debug, Clone)]
pub struct Auth {
    pub app_id: String,
    pub app_secret: String,
}

impl Auth {
    /// The token-exchange request built from these credentials.
    pub fn token_request(&self) -> (r: GetAccessToken)
        ensures
            r.spec_app_id() == self.app_id@,
            r.spec_app_secret() == self.app_secret@,
    {
        GetAccessToken::new(self.app_id.clone(), self.app_secret.clone())
    }
}

} // verus!

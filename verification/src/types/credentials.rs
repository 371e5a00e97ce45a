//! Credentials and what is shown of them.

use crate::clock::{parse_rfc3339, rfc3339_seconds};
use crate::text::opt_text;
use vstd::prelude::*;

verus! {

/// The tier of a user.
#[derive(Debug, Clone, Copy, PartialEq, Eq, Structural)]
pub enum UserTier {
    Free,
    Premium,
}

impl Default for UserTier {
    fn default() -> (tier: Self)
        ensures
            tier == UserTier::Free,
    {
        UserTier::Free
    }
}

impl UserTier {
    /// Whether the tier is the premium one.
    pub fn is_premium(&self) -> (premium: bool)
        ensures
            premium == (*self == UserTier::Premium),
    {
        match self {
            UserTier::Premium => true,
            UserTier::Free => false,
        }
    }
}

/// The credentials that are kept for a user.
#[derive(Debug)]
pub struct Credentials {
    pub access_token: String,
    pub refresh_token: Option<String>,
    /// The time at which the access token ends, as RFC 3339.
    pub expires_at: String,
    pub email: String,
    pub tier: UserTier,
    pub user_id: String,
}

/// The seconds before its end from which on an access token counts as
/// expired.
pub const EXPIRY_MARGIN: i64 = 300;

/// Whether an access token that ends at `expires`, in Unix seconds, counts as
/// expired at `now`: from five minutes before its end on. An end that could
/// not be read is in the past.
pub open spec fn expired_at(expires: Option<int>, now: int) -> bool {
    match expires {
        Some(t) => now >= t - EXPIRY_MARGIN,
        None => true,
    }
}

impl Credentials {
    /// Whether the access token counts as expired at `now`, in Unix seconds:
    /// from five minutes before its end on, and always where the end is no
    /// RFC 3339 time.
    pub fn is_expired(&self, now: i64) -> (expired: bool)
        ensures
            expired == expired_at(rfc3339_seconds(self.expires_at@), now as int),
    {
        match parse_rfc3339(self.expires_at.as_str()) {
            Some(t) => (now as i128) >= (t as i128) - (EXPIRY_MARGIN as i128),
            None => true,
        }
    }

    /// Whether the user is of the premium tier.
    pub fn is_premium(&self) -> (premium: bool)
        ensures
            premium == (self.tier == UserTier::Premium),
    {
        self.tier.is_premium()
    }
}

/// Where credentials came from.
#[derive(Debug, Clone, Copy, PartialEq, Eq, Structural)]
pub enum AuthSource {
    /// There are no credentials.
    Missing,
    File,
    Environment,
}

/// What is shown of a user's credentials.
#[derive(Debug)]
pub struct AuthStatus {
    pub authenticated: bool,
    pub email: Option<String>,
    pub tier: Option<UserTier>,
    pub expires_at: Option<String>,
    pub source: AuthSource,
}

impl Default for AuthStatus {
    /// The status of a user without credentials.
    fn default() -> (status: Self)
        ensures
            !status.authenticated,
            status.email is None,
            status.tier is None,
            status.expires_at is None,
            status.source == AuthSource::Missing,
    {
        AuthStatus {
            authenticated: false,
            email: None,
            tier: None,
            expires_at: None,
            source: AuthSource::Missing,
        }
    }
}

impl AuthStatus {
    /// The status of a user with the credentials `creds`, read from a file.
    pub fn from_credentials(creds: &Credentials) -> (status: AuthStatus)
        ensures
            status.authenticated,
            opt_text(status.email) == Some(creds.email@),
            status.tier == Some(creds.tier),
            opt_text(status.expires_at) == Some(creds.expires_at@),
            status.source == AuthSource::File,
    {
        AuthStatus {
            authenticated: true,
            email: Some(creds.email.clone()),
            tier: Some(creds.tier),
            expires_at: Some(creds.expires_at.clone()),
            source: AuthSource::File,
        }
    }
}

} // verus!

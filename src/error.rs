use vstd::prelude::*;

verus! {

/// Why a refresh failed.
#[derive(Debug, Clone, Copy, PartialEq, Eq, Structural)]
pub enum RefreshFailure {
    /// The context holds no refresh token.
    NoRefreshToken,
    /// The provider refused the refresh token.
    Rejected,
}

/// The stage at which a login or a refresh failed.
#[derive(Debug, Clone, PartialEq, Eq, Structural)]
pub enum AuthError {
    /// A metadata document could not be read or lacks a required field.
    Discovery,
    /// The local callback port could not be bound; holds the port.
    ListenerBind(u16),
    /// The redirect lacks the `code` or the `state` parameter.
    MissingParameter,
    /// The redirect's `state` differs from the CSRF token of this attempt.
    Redirect,
    /// An endpoint or the authorization URL is not a valid URL.
    InvalidUrl,
    /// The token endpoint refused the authorization code.
    TokenExchange,
    /// The token cannot be refreshed; says why.
    Refresh(RefreshFailure),
    /// The provider reported no lifetime for the token.
    MissingExpiry,
    /// The token's lifetime puts its expiration out of range.
    ExpiryOutOfRange,
    /// No redirect arrived before the listener's deadline.
    LoginTimedOut,
}

impl AuthError {
    /// The one-line message for this failure.
    pub open spec fn spec_message(self) -> Seq<char> {
        match self {
            AuthError::Discovery => "cannot resolve the service endpoints"@,
            AuthError::ListenerBind(_) => "cannot bind the local callback port"@,
            AuthError::MissingParameter => "the redirect lacks the code or the state"@,
            AuthError::Redirect => "the redirect state does not match this login attempt"@,
            AuthError::InvalidUrl => "an endpoint is not a valid URL"@,
            AuthError::TokenExchange => "error retrieving the authentication token"@,
            AuthError::Refresh(RefreshFailure::NoRefreshToken) => "Error loading refresh token from config"@,
            AuthError::Refresh(RefreshFailure::Rejected) => "Error when fetching a refresh token"@,
            AuthError::MissingExpiry => "Missing expiration time on token"@,
            AuthError::ExpiryOutOfRange => "Error calculating token expiration date"@,
            AuthError::LoginTimedOut => "no redirect arrived in time"@,
        }
    }

    /// A one-line message naming the stage that failed.
    pub fn message(&self) -> (r: String)
        ensures
            r@ == self.spec_message(),
    {
        let s: &str = match self {
            AuthError::Discovery => "cannot resolve the service endpoints",
            AuthError::ListenerBind(_) => "cannot bind the local callback port",
            AuthError::MissingParameter => "the redirect lacks the code or the state",
            AuthError::Redirect => "the redirect state does not match this login attempt",
            AuthError::InvalidUrl => "an endpoint is not a valid URL",
            AuthError::TokenExchange => "error retrieving the authentication token",
            AuthError::Refresh(RefreshFailure::NoRefreshToken) => "Error loading refresh token from config",
            AuthError::Refresh(RefreshFailure::Rejected) => "Error when fetching a refresh token",
            AuthError::MissingExpiry => "Missing expiration time on token",
            AuthError::ExpiryOutOfRange => "Error calculating token expiration date",
            AuthError::LoginTimedOut => "no redirect arrived in time",
        };
        s.to_string()
    }
}

} // verus!

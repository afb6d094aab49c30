use crate::error::{AuthError, RefreshFailure};
use crate::secret::Secret;
use crate::lifecycle::{
    calculate_token_expiration_date, in_time_range, is_valid, stamped_expiration, valid_at,
    TokenPair,
};
use vstd::prelude::*;

verus! {

/// Seconds of validity a token must have left to be used as it is.
pub const SAFETY_MARGIN: i64 = 30;

/// The endpoints that a login resolves.
#[derive(Debug, Clone)]
pub struct Endpoints {
    pub service_url: String,
    pub auth_url: String,
    pub token_url: String,
    pub registry_url: String,
}

/// The record of a login, kept by the caller as a context.
#[derive(Clone)]
pub struct Context {
    pub name: String,
    pub endpoints: Endpoints,
    pub default_app: Option<String>,
    pub token: TokenPair,
    /// Seconds since the Unix epoch.
    pub token_exp_date: i64,
}

/// What to do with the token of a context before an authenticated call.
pub enum TokenCheck {
    /// The current access token can be used.
    Valid,
    /// Refresh with this refresh token first.
    Refresh(Secret),
}

/// Whether a token received at `now` can be stamped: it reports a lifetime
/// and its expiration is in range.
pub open spec fn stamp_ok(token: TokenPair, now: int) -> bool {
    match stamped_expiration(token.expires_in, now) {
        Some(t) => in_time_range(t),
        None => false,
    }
}

/// The expiration a token gets when stamped at `now`, where `stamp_ok` holds.
pub open spec fn stamp_of(token: TokenPair, now: int) -> int {
    stamped_expiration(token.expires_in, now).unwrap()
}

/// A token reporting a lifetime of `e` seconds, received at an instant
/// `now` for which `now + e` is in range, is stamped to expire at exactly
/// `now + e`; by their contracts `login` and `refresh_token` then keep that
/// instant as the context's expiration.
pub proof fn lemma_stamp_is_now_plus_lifetime(token: TokenPair, now: int, e: u64)
    requires
        token.expires_in == Some(e),
        in_time_range(now + e),
    ensures
        stamp_ok(token, now),
        stamp_of(token, now) == now + e,
{
}

/// Completes a login from the outcome of the code exchange (`None` where the
/// token endpoint refused it), stamping the token received at `now`.
pub fn login(name: String, endpoints: Endpoints, exchanged: Option<TokenPair>, now: i64) -> (r: Result<Context, AuthError>)
    ensures
        match exchanged {
            None => r matches Err(e) && e == AuthError::TokenExchange,
            Some(t) => if stamp_ok(t, now as int) {
                r matches Ok(c) && c.name == name && c.endpoints == endpoints
                    && c.default_app is None && c.token == t
                    && c.token_exp_date == stamp_of(t, now as int)
            } else if t.expires_in is None {
                r matches Err(e) && e == AuthError::MissingExpiry
            } else {
                r matches Err(e) && e == AuthError::ExpiryOutOfRange
            },
        },
{
    let token = match exchanged {
        None => return Err(AuthError::TokenExchange),
        Some(t) => t,
    };
    let token_exp_date = calculate_token_expiration_date(&token, now)?;
    Ok(Context { name, endpoints, default_app: None, token, token_exp_date })
}

/// The refresh token of a context, or `Refresh(NoRefreshToken)` where it
/// holds none; the
/// context is left as it is either way.
pub fn refresh_grant(context: &Context) -> (r: Result<Secret, AuthError>)
    ensures
        match context.token.refresh_token {
            Some(t) => r matches Ok(u) && u@ == t@,
            None => r matches Err(e) && e == AuthError::Refresh(RefreshFailure::NoRefreshToken),
        },
{
    match &context.token.refresh_token {
        Some(t) => Ok(t.duplicate()),
        None => Err(AuthError::Refresh(RefreshFailure::NoRefreshToken)),
    }
}

/// Decides at `now` whether the token of a context can be used, keeping
/// `SAFETY_MARGIN` seconds in hand, or must be refreshed first.
pub fn verify_token_validity(context: &Context, now: i64) -> (r: Result<TokenCheck, AuthError>)
    ensures
        valid_at(context.token_exp_date as int, now as int, SAFETY_MARGIN as int)
            ==> r matches Ok(TokenCheck::Valid),
        !valid_at(context.token_exp_date as int, now as int, SAFETY_MARGIN as int) ==> match context.token.refresh_token {
            Some(t) => r matches Ok(TokenCheck::Refresh(u)) && u@ == t@,
            None => r matches Err(e) && e == AuthError::Refresh(RefreshFailure::NoRefreshToken),
        },
{
    if is_valid(context.token_exp_date, now, SAFETY_MARGIN) {
        Ok(TokenCheck::Valid)
    } else {
        let t = refresh_grant(context)?;
        Ok(TokenCheck::Refresh(t))
    }
}

/// Applies the outcome of a refresh grant made at `now` (`None` where the
/// provider refused the refresh token). A context without a refresh token
/// cannot be refreshed: it fails with `Refresh(NoRefreshToken)` whatever was
/// granted; a refused grant fails with `Refresh(Rejected)`. On
/// success the token pair and its expiration are replaced together and
/// nothing else changes; on failure the context is left as it was.
pub fn refresh_token(context: &mut Context, granted: Option<TokenPair>, now: i64) -> (r: Result<bool, AuthError>)
    ensures
        old(context).token.refresh_token is None ==> (r matches Err(e) && e == AuthError::Refresh(RefreshFailure::NoRefreshToken)
            && *final(context) == *old(context)),
        old(context).token.refresh_token is Some ==> match granted {
            None => r matches Err(e) && e == AuthError::Refresh(RefreshFailure::Rejected) && *final(context) == *old(context),
            Some(t) => if stamp_ok(t, now as int) {
                r == Ok::<bool, AuthError>(true) && final(context).token == t
                    && final(context).token_exp_date == stamp_of(t, now as int)
                    && final(context).name == old(context).name
                    && final(context).endpoints == old(context).endpoints
                    && final(context).default_app == old(context).default_app
            } else {
                *final(context) == *old(context) && r == Err::<bool, AuthError>(
                    if t.expires_in is None { AuthError::MissingExpiry } else { AuthError::ExpiryOutOfRange },
                )
            },
        },
{
    if context.token.refresh_token.is_none() {
        return Err(AuthError::Refresh(RefreshFailure::NoRefreshToken));
    }
    let token = match granted {
        None => return Err(AuthError::Refresh(RefreshFailure::Rejected)),
        Some(t) => t,
    };
    let exp = calculate_token_expiration_date(&token, now)?;
    context.token_exp_date = exp;
    context.token = token;
    Ok(true)
}

} // verus!

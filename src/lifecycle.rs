use crate::error::AuthError;
use crate::secret::Secret;
use vstd::prelude::*;

verus! {

/// What the token endpoint hands back: the access token, an optional refresh
/// token and the lifetime in seconds, when the provider reports one.
#[derive(Clone)]
pub struct TokenPair {
    pub access_token: Secret,
    pub refresh_token: Option<Secret>,
    pub expires_in: Option<u64>,
}

/// A token that expires at `expiration` is usable at `now` with `margin`
/// seconds to spare.
pub open spec fn valid_at(expiration: int, now: int, margin: int) -> bool {
    expiration - now > margin
}

/// The expiration instant of a token stamped at `now`, when it is defined.
pub open spec fn stamped_expiration(expires_in: Option<u64>, now: int) -> Option<int> {
    match expires_in {
        Some(e) => Some(now + e),
        None => None,
    }
}

/// Instants are seconds since the Unix epoch and fit in an `i64`.
pub open spec fn in_time_range(t: int) -> bool {
    i64::MIN <= t <= i64::MAX
}

/// Whether a token expiring at `expiration` is still usable at `now`,
/// keeping `margin` seconds in hand.
pub fn is_valid(expiration: i64, now: i64, margin: i64) -> (r: bool)
    ensures
        r == valid_at(expiration as int, now as int, margin as int),
{
    (expiration as i128) - (now as i128) > (margin as i128)
}

/// The absolute expiration of `token` when it is received at `now`.
pub fn calculate_token_expiration_date(token: &TokenPair, now: i64) -> (r: Result<i64, AuthError>)
    ensures
        token.expires_in is None <==> r == Err::<i64, AuthError>(AuthError::MissingExpiry),
        match stamped_expiration(token.expires_in, now as int) {
            Some(t) => if in_time_range(t) {
                r == Ok::<i64, AuthError>(t as i64)
            } else {
                r == Err::<i64, AuthError>(AuthError::ExpiryOutOfRange)
            },
            None => true,
        },
{
    match token.expires_in {
        None => Err(AuthError::MissingExpiry),
        Some(e) => {
            let t: i128 = (now as i128) + (e as i128);
            if t <= (i64::MAX as i128) {
                Ok(t as i64)
            } else {
                Err(AuthError::ExpiryOutOfRange)
            }
        },
    }
}

/// Validity only shrinks as time advances: a token usable at `later` with a
/// margin is usable with that margin at any earlier instant, and it is not
/// usable at any instant from `expiration - margin` on.
pub proof fn lemma_validity_monotonic(expiration: int, earlier: int, later: int, margin: int)
    requires
        earlier <= later,
    ensures
        valid_at(expiration, later, margin) ==> valid_at(expiration, earlier, margin),
        later >= expiration - margin ==> !valid_at(expiration, later, margin),
{
}

} // verus!

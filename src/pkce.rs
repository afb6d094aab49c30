use crate::error::AuthError;
use crate::secret::Secret;
use oauth2::basic::BasicClient;
use oauth2::{
    AuthUrl, ClientId, CsrfToken, PkceCodeChallenge, PkceCodeVerifier, RedirectUrl, Scope,
};
use vstd::prelude::*;
use vstd::utf8::is_ascii_chars;

verus! {

/// The client identifier this tool registers with the identity provider.
pub const CLIENT_ID: &'static str = "drogue";

/// The scope that makes the login eligible for refresh tokens.
pub const OFFLINE_SCOPE: &'static str = "offline_access";

/// The SHA-256 code challenge that oauth2 derives from a code verifier.
pub uninterp spec fn challenge_of(verifier: Seq<char>) -> Seq<char>;

/// The authorization URL that oauth2 builds for a client, an authorization
/// endpoint, a redirect URL, a scope, a code verifier and a CSRF token; `None`
/// where one of the two URLs does not parse.
pub uninterp spec fn authorize_url_of(
    client_id: Seq<char>,
    auth_url: Seq<char>,
    redirect_url: Seq<char>,
    scope: Seq<char>,
    verifier: Seq<char>,
    csrf_token: Seq<char>,
) -> Option<Seq<char>>;

/// A code verifier that oauth2 accepts: ASCII, 43 to 128 characters.
pub open spec fn verifier_ok(v: Seq<char>) -> bool {
    is_ascii_chars(v) && 43 <= v.len() <= 128
}

/// Relies on oauth2's `PkceCodeChallenge::new_random_sha256`: 32 random bytes
/// in URL-safe base64 without padding (43 characters) as the verifier, and the
/// challenge that `from_code_verifier_sha256` derives from it.
#[verifier::external_body]
fn random_pkce_pair() -> (r: (String, String))
    ensures
        r.0@ == challenge_of(r.1@),
        r.1@.len() == 43,
        is_ascii_chars(r.1@),
{
    let (challenge, verifier) = PkceCodeChallenge::new_random_sha256();
    (challenge.as_str().to_string(), verifier.secret().to_string())
}

/// Relies on oauth2's `CsrfToken::new_random`: 16 random bytes in URL-safe
/// base64 without padding, 22 characters.
#[verifier::external_body]
fn random_csrf_token() -> (r: String)
    ensures
        r@.len() == 22,
{
    CsrfToken::new_random().secret().to_string()
}

/// Relies on oauth2's `PkceCodeChallenge::from_code_verifier_sha256`, which
/// panics unless the verifier has 43 to 128 bytes.
#[verifier::external_body]
fn challenge_for(verifier: &str) -> (r: String)
    requires
        verifier_ok(verifier@),
    ensures
        r@ == challenge_of(verifier@),
{
    let v = PkceCodeVerifier::new(verifier.to_string());
    PkceCodeChallenge::from_code_verifier_sha256(&v).as_str().to_string()
}

/// Relies on oauth2's `BasicClient::authorize_url` and
/// `AuthorizationRequest::url`: the authorization request with the scope, the
/// S256 challenge of the verifier and the CSRF token as `state`. `AuthUrl::new`
/// and `RedirectUrl::new` refuse a string that does not parse as a URL.
#[verifier::external_body]
fn oauth2_authorize_url(
    client_id: &str,
    auth_url: &str,
    redirect_url: &str,
    scope: &str,
    verifier: &str,
    csrf_token: &str,
) -> (r: Option<String>)
    requires
        verifier_ok(verifier@),
    ensures
        match r {
            Some(u) => authorize_url_of(client_id@, auth_url@, redirect_url@, scope@, verifier@, csrf_token@) == Some(u@),
            None => authorize_url_of(client_id@, auth_url@, redirect_url@, scope@, verifier@, csrf_token@) is None,
        },
{
    let (Ok(auth), Ok(redirect)) = (AuthUrl::new(auth_url.to_string()), RedirectUrl::new(redirect_url.to_string())) else {
        return None;
    };
    let challenge = PkceCodeChallenge::from_code_verifier_sha256(&PkceCodeVerifier::new(verifier.to_string()));
    let (url, _) = BasicClient::new(ClientId::new(client_id.to_string()), None, auth, None)
        .set_redirect_uri(redirect)
        .authorize_url(|| CsrfToken::new(csrf_token.to_string()))
        .add_scope(Scope::new(scope.to_string()))
        .set_pkce_challenge(challenge)
        .url();
    Some(url.to_string())
}

/// The secrets of one login attempt and the URL the user must visit.
pub struct PkceSession {
    pub verifier: Secret,
    pub challenge: String,
    pub csrf_token: Secret,
    pub authorization_url: String,
}

impl PkceSession {
    /// The challenge is the one derived from the verifier, and the
    /// authorization URL is the one built for `auth_url` and `redirect_url`
    /// from this verifier and CSRF token.
    pub open spec fn wf_for(&self, auth_url: Seq<char>, redirect_url: Seq<char>) -> bool {
        &&& verifier_ok(self.verifier@)
        &&& self.challenge@ == challenge_of(self.verifier@)
        &&& authorize_url_of(CLIENT_ID@, auth_url, redirect_url, OFFLINE_SCOPE@, self.verifier@, self.csrf_token@)
            == Some(self.authorization_url@)
    }
}

/// The code challenge for a code verifier.
pub fn code_challenge(verifier: &str) -> (r: String)
    requires
        verifier_ok(verifier@),
    ensures
        r@ == challenge_of(verifier@),
{
    challenge_for(verifier)
}

/// The login attempt for a given verifier and CSRF token: the challenge and
/// the authorization URL, or `InvalidUrl` where an endpoint does not parse.
pub fn authorization_request(auth_url: &str, redirect_url: &str, verifier: &str, csrf_token: &str) -> (r: Result<PkceSession, AuthError>)
    requires
        verifier_ok(verifier@),
    ensures
        match authorize_url_of(CLIENT_ID@, auth_url@, redirect_url@, OFFLINE_SCOPE@, verifier@, csrf_token@) {
            Some(_) => r matches Ok(s) && s.wf_for(auth_url@, redirect_url@)
                && s.verifier@ == verifier@ && s.csrf_token@ == csrf_token@,
            None => r == Err::<PkceSession, AuthError>(AuthError::InvalidUrl),
        },
{
    match oauth2_authorize_url(CLIENT_ID, auth_url, redirect_url, OFFLINE_SCOPE, verifier, csrf_token) {
        None => Err(AuthError::InvalidUrl),
        Some(u) => Ok(PkceSession {
            verifier: Secret::new(verifier.to_owned()),
            challenge: challenge_for(verifier),
            csrf_token: Secret::new(csrf_token.to_owned()),
            authorization_url: u,
        }),
    }
}

/// Starts a login attempt: a fresh random verifier and CSRF token, and the
/// authorization URL with the offline-access scope. No network I/O.
pub fn begin(auth_url: &str, redirect_url: &str) -> (r: Result<PkceSession, AuthError>)
    ensures
        match r {
            Ok(s) => s.wf_for(auth_url@, redirect_url@) && s.verifier@.len() == 43
                && s.csrf_token@.len() == 22,
            Err(e) => e == AuthError::InvalidUrl && exists|v: Seq<char>, c: Seq<char>|
                verifier_ok(v) && v.len() == 43 && c.len() == 22
                && #[trigger] authorize_url_of(CLIENT_ID@, auth_url@, redirect_url@, OFFLINE_SCOPE@, v, c) is None,
        },
{
    let (_, verifier) = random_pkce_pair();
    let csrf = random_csrf_token();
    authorization_request(auth_url, redirect_url, verifier.as_str(), csrf.as_str())
}

/// The code challenge is a function of the verifier: two attempts with the
/// same verifier send the same challenge.
pub proof fn lemma_challenge_deterministic(a: PkceSession, b: PkceSession, auth_url: Seq<char>, redirect_url: Seq<char>)
    requires
        a.wf_for(auth_url, redirect_url),
        b.wf_for(auth_url, redirect_url),
        a.verifier@ == b.verifier@,
    ensures
        a.challenge@ == b.challenge@,
{
}

} // verus!

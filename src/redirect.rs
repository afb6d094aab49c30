use crate::error::AuthError;
use qstring::QString;
use vstd::prelude::*;
use vstd::string::*;
use vstd::utf8::is_ascii_chars;

verus! {

/// The fixed local port on which the browser redirect is received.
pub const SERVER_PORT: u16 = 8080;

/// The redirect URL registered for this client, on `SERVER_PORT`.
pub const REDIRECT_URL: &'static str = "http://localhost:8080";

/// The page shown in the browser once the redirect has been received.
pub const ACK_PAGE: &'static str = "Authentication code retrieved. This browser can be closed.";

/// The page shown in the browser when the redirect is refused.
pub const REFUSED_PAGE: &'static str = "Authentication failed: the redirect was refused. This browser can be closed.";

/// `s` with every leading repetition of the non-empty pattern `p` removed.
pub open spec fn strip_repeated(s: Seq<char>, p: Seq<char>) -> Seq<char>
    decreases s.len(),
{
    if p.len() > 0 && p.len() <= s.len() && s.subrange(0, p.len() as int) == p {
        strip_repeated(s.subrange(p.len() as int, s.len() as int), p)
    } else {
        s
    }
}

/// The value that qstring finds for `key` in a query string: the first pair
/// with that name, percent-decoded, or `None` where the key is absent.
pub uninterp spec fn query_value_of(query: Seq<char>, key: Seq<char>) -> Option<Seq<char>>;

/// Whether `p` occurs in `s` at character position `i`.
fn occurs_at(s: &str, p: &str, i: usize) -> (r: bool)
    requires
        i + p@.len() <= s@.len(),
    ensures
        r == (s@.subrange(i as int, i + p@.len()) == p@),
{
    let _n = s.unicode_len();
    let m = p.unicode_len();
    let mut j: usize = 0;
    while j < m
        invariant
            j <= m,
            m == p@.len(),
            i + m <= s@.len(),
            s@.len() <= usize::MAX,
            forall|k: int| 0 <= k < j ==> s@[i + k] == p@[k],
        decreases m - j,
    {
        if s.get_char(i + j) != p.get_char(j) {
            proof {
                assert(s@.subrange(i as int, i + m)[j as int] != p@[j as int]);
            }
            return false;
        }
        j = j + 1;
    }
    proof {
        assert(s@.subrange(i as int, i + m) =~= p@);
    }
    true
}

/// `s` with every leading repetition of `pattern` removed.
fn trim_start<'a>(s: &'a str, pattern: &str) -> (r: &'a str)
    ensures
        r@ == strip_repeated(s@, pattern@),
{
    let n = s.unicode_len();
    let m = pattern.unicode_len();
    if m == 0 {
        return s;
    }
    let mut i: usize = 0;
    let mut more = true;
    proof {
        assert(s@.subrange(0, n as int) =~= s@);
    }
    while more
        invariant
            i <= n,
            n == s@.len(),
            m == pattern@.len(),
            m > 0,
            strip_repeated(s@.subrange(i as int, n as int), pattern@) == strip_repeated(s@, pattern@),
            !more ==> strip_repeated(s@.subrange(i as int, n as int), pattern@) == s@.subrange(i as int, n as int),
        decreases (n - i) as int + if more { 1int } else { 0int },
    {
        let ghost t = s@.subrange(i as int, n as int);
        if m <= n - i && occurs_at(s, pattern, i) {
            proof {
                assert(t.subrange(0, m as int) =~= s@.subrange(i as int, i + m));
                assert(t.subrange(m as int, t.len() as int) =~= s@.subrange(i + m, n as int));
            }
            i = i + m;
        } else {
            proof {
                if m <= t.len() {
                    assert(t.subrange(0, m as int) =~= s@.subrange(i as int, i + m));
                }
            }
            more = false;
        }
    }
    s.substring_char(i, n)
}

/// Relies on qstring's `QString::from` and `QString::get`: the value of the
/// first pair named `key`, `Some("")` for a key without a value. `QString::from`
/// slices the first byte of each segment and panics where that byte starts a
/// multi-byte character, so only ASCII queries are handed to it.
#[verifier::external_body]
fn query_param(query: &str, key: &str) -> (r: Option<String>)
    requires
        is_ascii_chars(query@),
    ensures
        match r {
            Some(v) => query_value_of(query@, key@) == Some(v@),
            None => query_value_of(query@, key@) is None,
        },
{
    QString::from(query).get(key).map(|v| v.to_string())
}

/// What one browser redirect carries.
pub struct AuthorizationResponse {
    pub code: String,
    pub state: String,
}

/// Removing a prefix keeps a string ASCII.
proof fn lemma_strip_keeps_ascii(s: Seq<char>, p: Seq<char>)
    requires
        is_ascii_chars(s),
    ensures
        is_ascii_chars(strip_repeated(s, p)),
    decreases s.len(),
{
    if p.len() > 0 && p.len() <= s.len() && s.subrange(0, p.len() as int) == p {
        let rest = s.subrange(p.len() as int, s.len() as int);
        assert forall|i| 0 <= i < rest.len() implies '\0' <= #[trigger] rest[i] <= '\u{7f}' by {
            assert(rest[i] == s[i + p.len()]);
        }
        lemma_strip_keeps_ascii(rest, p);
    }
}

/// The query string of a request target of the shape `/?a=b&c=d`.
pub open spec fn query_of(target: Seq<char>) -> Seq<char> {
    strip_repeated(target, "/?"@)
}

/// Reads `code` and `state` from the request target of the redirect. A
/// target that is not ASCII, as no browser sends, is refused as malformed with
/// `Redirect`; where `code` or `state` is absent (as when the provider reports
/// `error=access_denied`) it fails with `MissingParameter`.
pub fn parse_redirect(target: &str) -> (r: Result<AuthorizationResponse, AuthError>)
    ensures
        !is_ascii_chars(target@) ==> (r matches Err(e) && e == AuthError::Redirect),
        is_ascii_chars(target@) ==> match (query_value_of(query_of(target@), "code"@), query_value_of(query_of(target@), "state"@)) {
            (Some(c), Some(s)) => r matches Ok(a) && a.code@ == c && a.state@ == s,
            _ => r matches Err(e) && e == AuthError::MissingParameter,
        },
{
    if !target.is_ascii() {
        return Err(AuthError::Redirect);
    }
    let query = trim_start(target, "/?");
    proof {
        lemma_strip_keeps_ascii(target@, "/?"@);
    }
    let state = query_param(query, "state");
    let code = query_param(query, "code");
    match (code, state) {
        (Some(code), Some(state)) => Ok(AuthorizationResponse { code, state }),
        _ => Err(AuthError::MissingParameter),
    }
}

/// Handles the redirect of a login attempt whose CSRF token is `csrf_token`:
/// the authorization code where the returned `state` equals the token;
/// `Redirect` where it differs, whatever the code, so that no code of a
/// forged redirect reaches the token exchange. A target that is not ASCII is
/// refused with `Redirect` too.
pub fn handle_redirect(target: &str, csrf_token: &str) -> (r: Result<String, AuthError>)
    ensures
        !is_ascii_chars(target@) ==> (r matches Err(e) && e == AuthError::Redirect),
        is_ascii_chars(target@) ==> match (query_value_of(query_of(target@), "code"@), query_value_of(query_of(target@), "state"@)) {
            (Some(c), Some(s)) => if s == csrf_token@ {
                r matches Ok(code) && code@ == c
            } else {
                r matches Err(e) && e == AuthError::Redirect
            },
            _ => r matches Err(e) && e == AuthError::MissingParameter,
        },
{
    let response = parse_redirect(target)?;
    let expected = csrf_token.to_owned();
    if response.state == expected {
        Ok(response.code)
    } else {
        Err(AuthError::Redirect)
    }
}

} // verus!

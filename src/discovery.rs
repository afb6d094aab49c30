use crate::error::AuthError;
use vstd::prelude::*;
use vstd::string::*;

verus! {

/// The string that serde_json finds at a JSON pointer in a document; `None`
/// where the document does not parse, the pointer leads nowhere, or the value
/// there is not a string.
pub uninterp spec fn json_text_at(doc: Seq<char>, pointer: Seq<char>) -> Option<Seq<char>>;

/// Relies on `serde_json::from_str` and `serde_json::Value::pointer`: the
/// string at `pointer` in the parsed document.
#[verifier::external_body]
fn json_str_at(doc: &str, pointer: &str) -> (r: Option<String>)
    ensures
        match r {
            Some(v) => json_text_at(doc@, pointer@) == Some(v@),
            None => json_text_at(doc@, pointer@) is None,
        },
{
    match serde_json::from_str::<serde_json::Value>(doc) {
        Ok(v) => match v.pointer(pointer) {
            Some(serde_json::Value::String(s)) => Some(s.clone()),
            _ => None,
        },
        Err(_) => None,
    }
}

/// `s` without its trailing slashes.
pub open spec fn trim_trailing_slashes(s: Seq<char>) -> Seq<char>
    decreases s.len(),
{
    if s.len() > 0 && s.last() == '/' {
        trim_trailing_slashes(s.drop_last())
    } else {
        s
    }
}

/// The well-known metadata document `doc` under the URL `base`.
pub open spec fn well_known_of(base: Seq<char>, doc: Seq<char>) -> Seq<char> {
    trim_trailing_slashes(base) + "/.well-known/"@ + doc
}

fn well_known_url(base: &str, doc: &str) -> (r: String)
    ensures
        r@ == well_known_of(base@, doc@),
{
    let n = base.unicode_len();
    let mut end: usize = n;
    proof {
        assert(base@.subrange(0, n as int) =~= base@);
    }
    while end > 0 && base.get_char(end - 1) == '/'
        invariant
            end <= n,
            n == base@.len(),
            trim_trailing_slashes(base@.subrange(0, end as int)) == trim_trailing_slashes(base@),
        decreases end,
    {
        proof {
            assert(base@.subrange(0, end as int).drop_last() =~= base@.subrange(0, end - 1));
        }
        end = end - 1;
    }
    String::from_str(base.substring_char(0, end)).concat("/.well-known/").concat(doc)
}

/// The URL of the service's endpoint document under its base URL.
pub fn service_metadata_url(api_endpoint: &str) -> (r: String)
    ensures
        r@ == well_known_of(api_endpoint@, "drogue-endpoints"@),
{
    well_known_url(api_endpoint, "drogue-endpoints")
}

/// The URL of the identity provider's OpenID discovery document.
pub fn provider_metadata_url(issuer_url: &str) -> (r: String)
    ensures
        r@ == well_known_of(issuer_url@, "openid-configuration"@),
{
    well_known_url(issuer_url, "openid-configuration")
}

/// The URL that the url crate parses from `s`, written back in its
/// normalised form (`https://host` becomes `https://host/`); `None` where `s`
/// is not a URL.
pub uninterp spec fn normalized_url_of(s: Seq<char>) -> Option<Seq<char>>;

/// Relies on `reqwest::Url::parse` (the url crate's `Url::parse`) and the
/// `Display` of the parsed `Url`.
#[verifier::external_body]
fn normalize_url(s: &str) -> (r: Option<String>)
    ensures
        match r {
            Some(u) => normalized_url_of(s@) == Some(u@),
            None => normalized_url_of(s@) is None,
        },
{
    match reqwest::Url::parse(s) {
        Ok(u) => Some(u.to_string()),
        Err(_) => None,
    }
}

/// Two string fields of a document as normalised URLs: `Discovery` where
/// either is missing, `InvalidUrl` where either is not a URL.
pub open spec fn two_fields(doc: Seq<char>, first: Seq<char>, second: Seq<char>) -> Result<(Seq<char>, Seq<char>), AuthError> {
    match (json_text_at(doc, first), json_text_at(doc, second)) {
        (Some(a), Some(b)) => match (normalized_url_of(a), normalized_url_of(b)) {
            (Some(x), Some(y)) => Ok((x, y)),
            _ => Err(AuthError::InvalidUrl),
        },
        _ => Err(AuthError::Discovery),
    }
}

/// Whether `r` holds the strings that `spec_r` describes.
pub open spec fn same_pair(r: Result<(String, String), AuthError>, spec_r: Result<(Seq<char>, Seq<char>), AuthError>) -> bool {
    match (r, spec_r) {
        (Ok((a, b)), Ok((x, y))) => a@ == x && b@ == y,
        (Err(e), Err(f)) => e == f,
        _ => false,
    }
}

fn read_two_fields(doc: &str, first: &str, second: &str) -> (r: Result<(String, String), AuthError>)
    ensures
        same_pair(r, two_fields(doc@, first@, second@)),
{
    match (json_str_at(doc, first), json_str_at(doc, second)) {
        (Some(a), Some(b)) => match (normalize_url(a.as_str()), normalize_url(b.as_str())) {
            (Some(x), Some(y)) => Ok((x, y)),
            _ => Err(AuthError::InvalidUrl),
        },
        _ => Err(AuthError::Discovery),
    }
}

/// The service's endpoint document: the identity provider's base URL
/// (`issuer_url`) and the registry URL (`registry.url`), normalised.
pub fn parse_service_endpoints(doc: &str) -> (r: Result<(String, String), AuthError>)
    ensures
        same_pair(r, two_fields(doc@, "/issuer_url"@, "/registry/url"@)),
{
    read_two_fields(doc, "/issuer_url", "/registry/url")
}

/// The identity provider's discovery document: the authorization and the
/// token endpoints, normalised.
pub fn parse_provider_endpoints(doc: &str) -> (r: Result<(String, String), AuthError>)
    ensures
        same_pair(r, two_fields(doc@, "/authorization_endpoint"@, "/token_endpoint"@)),
{
    read_two_fields(doc, "/authorization_endpoint", "/token_endpoint")
}

} // verus!

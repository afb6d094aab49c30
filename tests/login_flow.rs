use drogue_login::{
    RefreshFailure,
    begin, code_challenge, handle_redirect, login, parse_provider_endpoints, parse_redirect,
    parse_service_endpoints, provider_metadata_url, service_metadata_url, refresh_grant, refresh_token, verify_token_validity,
    authorization_request, AuthError, Context, Endpoints, Secret, TokenCheck, TokenPair, REDIRECT_URL,
};

fn endpoints() -> Endpoints {
    Endpoints {
        service_url: "https://example.cloud".to_string(),
        auth_url: "https://sso.example.cloud/auth".to_string(),
        token_url: "https://sso.example.cloud/token".to_string(),
        registry_url: "https://api.example.cloud/".to_string(),
    }
}

fn token(access: &str, refresh: Option<&str>, expires_in: Option<u64>) -> TokenPair {
    TokenPair {
        access_token: Secret::new(access.to_string()),
        refresh_token: refresh.map(|r| Secret::new(r.to_string())),
        expires_in,
    }
}

fn context(refresh: Option<&str>, exp: i64) -> Context {
    Context {
        name: "default".to_string(),
        endpoints: endpoints(),
        default_app: None,
        token: token("old", refresh, Some(60)),
        token_exp_date: exp,
    }
}

const RFC_VERIFIER: &str = "dBjftJeZ4CVP-mB92K27uhbUJU1p1r_wW1gFWFOEjXk";
const RFC_CHALLENGE: &str = "E9Melhoa2OwvFrEMTJguCHaoeK1t8URWbuGJSstw-cM";

#[test]
fn challenge_matches_rfc_example() {
    assert_eq!(code_challenge(RFC_VERIFIER), RFC_CHALLENGE);
    assert_eq!(code_challenge(RFC_VERIFIER), code_challenge(RFC_VERIFIER));
}

#[test]
fn begin_derives_challenge_from_verifier() {
    let s = begin("https://sso.example.cloud/auth", REDIRECT_URL).unwrap();
    assert_eq!(s.verifier.secret().len(), 43);
    assert_eq!(s.csrf_token.secret().len(), 22);
    assert_eq!(s.challenge, code_challenge(s.verifier.secret()));
}

#[test]
fn begin_never_repeats_secrets() {
    let mut verifiers = Vec::new();
    let mut csrfs = Vec::new();
    for _ in 0..50 {
        let s = begin("https://sso.example.cloud/auth", REDIRECT_URL).unwrap();
        let v = s.verifier.secret().to_string();
        let c = s.csrf_token.secret().to_string();
        assert!(!verifiers.contains(&v));
        assert!(!csrfs.contains(&c));
        verifiers.push(v);
        csrfs.push(c);
    }
}

#[test]
fn authorization_url_carries_request() {
    let s = authorization_request("https://sso.example.cloud/auth", REDIRECT_URL, RFC_VERIFIER, "csrf123")
        .unwrap();
    let u = &s.authorization_url;
    assert!(u.starts_with("https://sso.example.cloud/auth?"));
    assert!(u.contains("response_type=code"));
    assert!(u.contains("client_id=drogue"));
    assert!(u.contains("state=csrf123"));
    assert!(u.contains(&format!("code_challenge={}", RFC_CHALLENGE)));
    assert!(u.contains("code_challenge_method=S256"));
    assert!(u.contains("scope=offline_access"));
    assert!(u.contains("redirect_uri=http%3A%2F%2Flocalhost%3A8080"));
    assert_eq!(s.challenge, RFC_CHALLENGE);
}

#[test]
fn authorization_url_rejects_bad_endpoint() {
    assert_eq!(
        authorization_request("not a url", REDIRECT_URL, RFC_VERIFIER, "c").err(),
        Some(AuthError::InvalidUrl)
    );
    assert_eq!(begin("not a url", REDIRECT_URL).err(), Some(AuthError::InvalidUrl));
}

#[test]
fn validity_shrinks_with_time() {
    assert!(drogue_login::is_valid(1000, 900, 30));
    assert!(drogue_login::is_valid(1000, 500, 30));
    assert!(!drogue_login::is_valid(1000, 970, 30));
    assert!(!drogue_login::is_valid(1000, 2000, 30));
    assert!(drogue_login::is_valid(1000, 969, 30));
    assert!(drogue_login::is_valid(i64::MAX, i64::MIN, 30));
}

#[test]
fn expiration_is_now_plus_lifetime() {
    let t = token("a", None, Some(3600));
    assert_eq!(drogue_login::calculate_token_expiration_date(&t, 1_000), Ok(4_600));
}

#[test]
fn expiration_missing() {
    let t = token("a", None, None);
    assert_eq!(
        drogue_login::calculate_token_expiration_date(&t, 1_000),
        Err(AuthError::MissingExpiry)
    );
}

#[test]
fn expiration_out_of_range() {
    let t = token("a", None, Some(u64::MAX));
    assert_eq!(
        drogue_login::calculate_token_expiration_date(&t, i64::MAX - 5),
        Err(AuthError::ExpiryOutOfRange)
    );
}

#[test]
fn redirect_extracts_code_and_state() {
    let r = parse_redirect("/?code=XYZ&state=abc").unwrap();
    assert_eq!(r.code, "XYZ");
    assert_eq!(r.state, "abc");
}

#[test]
fn redirect_with_matching_state() {
    assert_eq!(handle_redirect("/?state=s1&code=XYZ", "s1"), Ok("XYZ".to_string()));
}

#[test]
fn redirect_rejects_foreign_state() {
    assert_eq!(handle_redirect("/?code=XYZ&state=forged", "s1"), Err(AuthError::Redirect));
}

#[test]
fn redirect_missing_parameter() {
    assert_eq!(
        handle_redirect("/?error=access_denied&state=s1", "s1"),
        Err(AuthError::MissingParameter)
    );
    assert_eq!(handle_redirect("/?code=XYZ", "s1"), Err(AuthError::MissingParameter));
    assert!(parse_redirect("/").is_err());
}

#[test]
fn redirect_rejects_non_ascii_target() {
    assert_eq!(handle_redirect("/?\u{e9}=1&code=XYZ&state=s1", "s1"), Err(AuthError::Redirect));
    assert!(parse_redirect("/?state=\u{e9}&code=1").is_err());
}

#[test]
fn redirect_decodes_values() {
    let r = parse_redirect("/?code=a%2Fb&state=s%201").unwrap();
    assert_eq!(r.code, "a/b");
    assert_eq!(r.state, "s 1");
}

#[test]
fn service_endpoints_are_read() {
    let doc = r#"{"issuer_url":"https://sso.example.cloud","registry":{"url":"https://api.example.cloud"}}"#;
    assert_eq!(
        parse_service_endpoints(doc),
        Ok(("https://sso.example.cloud/".to_string(), "https://api.example.cloud/".to_string()))
    );
}

#[test]
fn discovery_missing_field() {
    assert_eq!(
        parse_service_endpoints(r#"{"issuer_url":"https://sso.example.cloud"}"#),
        Err(AuthError::Discovery)
    );
    assert_eq!(parse_provider_endpoints("not json"), Err(AuthError::Discovery));
    assert_eq!(
        parse_provider_endpoints(r#"{"authorization_endpoint":1,"token_endpoint":"t"}"#),
        Err(AuthError::Discovery)
    );
}

#[test]
fn discovery_to_exchange_round_trip() {
    let (sso, registry) = parse_service_endpoints(
        r#"{"issuer_url":"https://sso.example.cloud","registry":{"url":"https://api.example.cloud"}}"#,
    )
    .unwrap();
    assert_eq!(sso, "https://sso.example.cloud/");
    let (auth, tok) = parse_provider_endpoints(
        r#"{"authorization_endpoint":"https://sso.example.cloud/auth","token_endpoint":"https://sso.example.cloud/token"}"#,
    )
    .unwrap();
    let eps = Endpoints {
        service_url: "https://example.cloud".to_string(),
        auth_url: auth,
        token_url: tok,
        registry_url: registry,
    };
    let now = 1_700_000_000;
    let c = login("ctx".to_string(), eps, Some(token("abc", None, Some(3600))), now).unwrap();
    assert_eq!(c.token_exp_date, now + 3600);
    assert_eq!(c.token.access_token.secret(), "abc");
    assert_eq!(c.default_app, None);
}

#[test]
fn full_login_scenario() {
    let (auth, tok) = parse_provider_endpoints(
        r#"{"authorization_endpoint":"https://sso.example.cloud/auth","token_endpoint":"https://sso.example.cloud/token"}"#,
    )
    .unwrap();
    let (_, registry) = parse_service_endpoints(
        r#"{"issuer_url":"https://sso.example.cloud","registry":{"url":"https://api.example.cloud"}}"#,
    )
    .unwrap();
    let s = begin(&auth, REDIRECT_URL).unwrap();
    let target = format!("/?code=XYZ&state={}", s.csrf_token.secret());
    assert_eq!(handle_redirect(&target, s.csrf_token.secret()), Ok("XYZ".to_string()));
    let eps = Endpoints {
        service_url: "https://example.cloud".to_string(),
        auth_url: auth,
        token_url: tok,
        registry_url: registry,
    };
    let now = 1_000;
    let c = login("ctx".to_string(), eps, Some(token("T1", Some("R1"), Some(120))), now).unwrap();
    assert_eq!(c.endpoints.auth_url, "https://sso.example.cloud/auth");
    assert_eq!(c.endpoints.token_url, "https://sso.example.cloud/token");
    assert_eq!(c.endpoints.registry_url, "https://api.example.cloud/");
    assert_eq!(c.token.access_token.secret(), "T1");
    assert_eq!(c.token.refresh_token.as_ref().map(|t| t.secret()), Some("R1"));
    assert_eq!(c.token_exp_date, now + 120);
}

#[test]
fn login_exchange_refused() {
    assert_eq!(login("c".to_string(), endpoints(), None, 0).err(), Some(AuthError::TokenExchange));
    assert_eq!(
        login("c".to_string(), endpoints(), Some(token("a", None, None)), 0).err(),
        Some(AuthError::MissingExpiry)
    );
}

#[test]
fn valid_token_is_kept() {
    let c = context(Some("r"), 1_000);
    assert!(matches!(verify_token_validity(&c, 900), Ok(TokenCheck::Valid)));
}

#[test]
fn near_expiry_asks_refresh() {
    let c = context(Some("r"), 1_000);
    match verify_token_validity(&c, 980) {
        Ok(TokenCheck::Refresh(t)) => assert_eq!(t.secret(), "r"),
        _ => panic!("expected a refresh"),
    }
}

#[test]
fn refresh_without_refresh_token_fails() {
    let c = context(None, 1_000);
    assert!(matches!(verify_token_validity(&c, 2_000), Err(AuthError::Refresh(RefreshFailure::NoRefreshToken))));
    assert_eq!(refresh_grant(&c).err(), Some(AuthError::Refresh(RefreshFailure::NoRefreshToken)));
    assert_eq!(c.token.access_token.secret(), "old");
    assert_eq!(c.token_exp_date, 1_000);
}

#[test]
fn refresh_grant_hands_out_token() {
    let c = context(Some("r"), 1_000);
    assert_eq!(refresh_grant(&c).ok().map(|t| t.secret().to_string()), Some("r".to_string()));
}

#[test]
fn refresh_without_refresh_token_ignores_grant() {
    let mut c = context(None, 1_000);
    assert_eq!(
        refresh_token(&mut c, Some(token("new", Some("r2"), Some(300))), 2_000),
        Err(AuthError::Refresh(RefreshFailure::NoRefreshToken))
    );
    assert_eq!(c.token.access_token.secret(), "old");
    assert!(c.token.refresh_token.is_none());
    assert_eq!(c.token.expires_in, Some(60));
    assert_eq!(c.token_exp_date, 1_000);
}

#[test]
fn metadata_urls() {
    assert_eq!(
        service_metadata_url("https://example.cloud/"),
        "https://example.cloud/.well-known/drogue-endpoints"
    );
    assert_eq!(
        service_metadata_url("https://example.cloud"),
        "https://example.cloud/.well-known/drogue-endpoints"
    );
    assert_eq!(
        provider_metadata_url("https://sso.example.cloud/realms/drogue//"),
        "https://sso.example.cloud/realms/drogue/.well-known/openid-configuration"
    );
}

#[test]
fn redirect_prefix_is_trimmed() {
    assert_eq!(handle_redirect("/?/?code=XYZ&state=s1", "s1"), Ok("XYZ".to_string()));
    assert_eq!(handle_redirect("code=XYZ&state=s1", "s1"), Ok("XYZ".to_string()));
    assert_eq!(handle_redirect("/code=XYZ&state=s1", "s1"), Err(AuthError::MissingParameter));
}

#[test]
fn refresh_replaces_token() {
    let mut c = context(Some("r"), 1_000);
    assert_eq!(refresh_token(&mut c, Some(token("new", Some("r2"), Some(300))), 2_000), Ok(true));
    assert_eq!(c.token.access_token.secret(), "new");
    assert_eq!(c.token.refresh_token.as_ref().map(|t| t.secret()), Some("r2"));
    assert_eq!(c.token_exp_date, 2_300);
    assert_eq!(c.name, "default");
}

#[test]
fn refused_refresh_leaves_context() {
    let mut c = context(Some("r"), 1_000);
    assert_eq!(refresh_token(&mut c, None, 2_000), Err(AuthError::Refresh(RefreshFailure::Rejected)));
    assert_eq!(c.token.access_token.secret(), "old");
    assert_eq!(c.token_exp_date, 1_000);
    assert_eq!(refresh_token(&mut c, Some(token("new", None, None)), 2_000), Err(AuthError::MissingExpiry));
    assert_eq!(c.token.access_token.secret(), "old");
    assert_eq!(c.token_exp_date, 1_000);
}

#[test]
fn discovery_invalid_url() {
    assert_eq!(
        parse_provider_endpoints(r#"{"authorization_endpoint":"not a url","token_endpoint":"https://t/"}"#),
        Err(AuthError::InvalidUrl)
    );
}

#[test]
fn error_messages_follow_stage() {
    assert_eq!(AuthError::MissingExpiry.message(), "Missing expiration time on token");
    assert_eq!(AuthError::ExpiryOutOfRange.message(), "Error calculating token expiration date");
    assert_eq!(
        AuthError::Refresh(RefreshFailure::NoRefreshToken).message(),
        "Error loading refresh token from config"
    );
    assert_eq!(
        AuthError::Refresh(RefreshFailure::Rejected).message(),
        "Error when fetching a refresh token"
    );
    assert_eq!(AuthError::TokenExchange.message(), "error retrieving the authentication token");
}

#[test]
fn error_messages_are_nonempty() {
    assert!(!AuthError::ListenerBind(8080).message().is_empty());
    assert!(!AuthError::LoginTimedOut.message().is_empty());
}

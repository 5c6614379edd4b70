use sha2::Digest;
use hylandia_api::config::{Config, EnvVars};
use hylandia_api::cookies::{access_cookie, clear, oauth_state_cookie, refresh_cookie, SameSite, ACCESS_COOKIE, OAUTH_COOKIE, REFRESH_COOKIE};
use hylandia_api::encoding::{decode_b64url, encode_b64url, encode_hex_lower};
use hylandia_api::error::ApiError;
use hylandia_api::http_log::RequestContext;
use hylandia_api::hytale::pkce::{random_urlsafe, Pkce};
use hylandia_api::response::ErrorPayload;
use hylandia_api::routes::auth::session::{hash_refresh_token, issued_tokens, new_refresh_token};
use hylandia_api::routes::health::readiness_status;
use hylandia_api::telemetry::{environment, reporting_enabled};

fn config(domain: &str, secure: bool) -> Config {
    let mut c = Config::from_vars(&EnvVars {
        port: None,
        log_format: None,
        database_url: Some("db".into()),
        hytale_issuer: None,
        hytale_client_id: Some("c".into()),
        hytale_client_secret: Some("s".into()),
        hytale_redirect_uri: Some("r".into()),
        hytale_scopes: None,
        jwt_private_key_pem: Some("k".into()),
        jwt_public_key_pem: Some("p".into()),
        jwt_issuer: None,
        jwt_audience: None,
        access_token_ttl_secs: None,
        refresh_token_ttl_secs: None,
        frontend_url: Some("https://f".into()),
        cookie_domain: None,
        cookie_secure: None,
        sentry_dsn: None,
        run_env: None,
    })
    .unwrap();
    c.cookie_domain = domain.to_string();
    c.cookie_secure = secure;
    c
}

fn all_errors() -> Vec<ApiError> {
    vec![
        ApiError::BadRequest("b".into()),
        ApiError::Unauthorized,
        ApiError::NotFound,
        ApiError::HytaleAuth("h".into()),
        ApiError::Database("d".into()),
        ApiError::Pool("p".into()),
        ApiError::Http("x".into()),
        ApiError::Jwt("j".into()),
        ApiError::Internal("i".into()),
    ]
}

#[test]
fn error_statuses_and_codes() {
    let expected = [
        (400, "BAD_REQUEST", "invalid request: b"),
        (401, "UNAUTHORIZED", "unauthorized"),
        (404, "NOT_FOUND", "not found"),
        (400, "HYTALE_AUTH_FAILED", "hytale sign-in failed: h"),
        (500, "DATABASE_ERROR", "database error: d"),
        (500, "DATABASE_ERROR", "database pool error: p"),
        (502, "UPSTREAM_ERROR", "upstream request failed: x"),
        (401, "INVALID_TOKEN", "token error: j"),
        (500, "INTERNAL_ERROR", "internal error: i"),
    ];
    for (e, (status, code, message)) in all_errors().iter().zip(expected) {
        assert_eq!(e.status(), status);
        assert_eq!(e.code(), code);
        assert_eq!(e.message(), message);
        let p = ErrorPayload::from_error(e);
        assert_eq!(p.code, code);
        assert_eq!(p.message, message);
    }
}

#[test]
fn only_server_errors_are_unexpected() {
    for e in all_errors() {
        assert_eq!(e.is_expected(), e.status() < 500, "{e:?}");
    }
}

#[test]
fn cookie_attributes() {
    let c = config("", true);
    let o = oauth_state_cookie(&c, "v".into());
    assert_eq!((o.name.as_str(), o.value.as_str(), o.path.as_str(), o.max_age_secs), (OAUTH_COOKIE, "v", "/auth/hytale", 600));
    assert!(o.http_only && o.secure && o.domain.is_none() && o.same_site == SameSite::Lax);
    let a = access_cookie(&c, "at".into(), 900);
    assert_eq!((a.name.as_str(), a.path.as_str(), a.max_age_secs, a.same_site), (ACCESS_COOKIE, "/", 900, SameSite::Lax));
    let r = refresh_cookie(&c, "rt".into(), 30);
    assert_eq!((r.name.as_str(), r.path.as_str(), r.max_age_secs, r.same_site), (REFRESH_COOKIE, "/auth", 30, SameSite::Strict));
    let d = config("hylandia.example", false);
    let x = clear(&d, REFRESH_COOKIE, "/auth");
    assert_eq!((x.value.as_str(), x.max_age_secs, x.secure), ("", 0, false));
    assert_eq!(x.domain.as_deref(), Some("hylandia.example"));
}

#[test]
fn issued_tokens_use_configured_ttls() {
    let mut c = config("", true);
    c.access_token_ttl_secs = 60;
    c.refresh_token_ttl_secs = 120;
    let t = issued_tokens(&c, "a".into(), "r".into());
    assert_eq!((t.access_cookie.value.as_str(), t.access_cookie.max_age_secs), ("a", 60));
    assert_eq!((t.refresh_cookie.value.as_str(), t.refresh_cookie.max_age_secs), ("r", 120));
    assert_eq!(t.refresh_cookie.same_site, SameSite::Strict);
}

#[test]
fn refresh_token_hash_is_hex_sha256() {
    assert_eq!(hash_refresh_token("abc"), "ba7816bf8f01cfea414140de5dae2223b00361a396177a9cb410ff61f20015ad");
    assert_eq!(hash_refresh_token("abc"), hash_refresh_token("abc"));
    assert_ne!(hash_refresh_token("abc"), hash_refresh_token("abd"));
    assert_eq!(hash_refresh_token("").len(), 64);
}

#[test]
fn hex_and_base64_encodings() {
    assert_eq!(encode_hex_lower(&[0x00, 0x0f, 0xa0, 0xff]), "000fa0ff");
    assert_eq!(encode_b64url(b"abc"), "YWJj");
    assert_eq!(encode_b64url(b"ab"), "YWI");
    assert_eq!(encode_b64url(b""), "");
    assert_eq!(decode_b64url("YWI").as_deref(), Some(&b"ab"[..]));
    assert_eq!(decode_b64url("YWJ"), None);
}

#[test]
fn new_tokens_are_urlsafe() {
    let t = new_refresh_token();
    assert_eq!(t.len(), 43);
    assert!(t.chars().all(|c| c.is_ascii_alphanumeric() || c == '-' || c == '_'));
    assert_eq!(decode_b64url(&t).unwrap().len(), 32);
    assert_eq!(random_urlsafe(16).len(), 22);
    assert_ne!(new_refresh_token(), new_refresh_token());
}

#[test]
fn pkce_challenge_is_s256_of_verifier() {
    let p = Pkce::generate();
    assert_eq!(p.verifier.len(), 43);
    let digest = sha2::Sha256::digest(p.verifier.as_bytes());
    assert_eq!(p.challenge, encode_b64url(&digest));
    assert_eq!(p.challenge.len(), 43);
}

#[test]
fn request_context_ids() {
    let c = RequestContext::standalone();
    assert_eq!(c.request_id.len(), 36);
    assert_eq!(&c.request_id[14..15], "4");
    assert_eq!(c.trace_id.len(), 32);
    assert_eq!(c.span_id.len(), 16);
    assert!(c.trace_id.chars().chain(c.span_id.chars()).all(|ch| ch.is_ascii_hexdigit() && !ch.is_ascii_uppercase()));
    let g = RequestContext::generate(Some("req-1".into()));
    assert_eq!(g.request_id, "req-1");
    assert_ne!(RequestContext::standalone().trace_id, RequestContext::standalone().trace_id);
}

#[test]
fn telemetry_settings() {
    assert_eq!(environment(Some("production")), "production");
    assert_eq!(environment(Some("prod")), "production");
    assert_eq!(environment(Some("staging")), "development");
    assert_eq!(environment(None), "development");
    assert!(!reporting_enabled(&None));
    assert!(!reporting_enabled(&Some(String::new())));
    assert!(reporting_enabled(&Some("dsn".into())));
}

#[test]
fn readiness_follows_database() {
    assert_eq!(readiness_status(true), 200);
    assert_eq!(readiness_status(false), 503);
}

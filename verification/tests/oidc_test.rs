use base64::engine::general_purpose::URL_SAFE_NO_PAD;
use base64::Engine;
use p256::elliptic_curve::sec1::ToEncodedPoint;
use p256::pkcs8::{EncodePrivateKey, EncodePublicKey, LineEnding};
use sha2::Digest;
use hylandia_api::hytale::claims::{IdTokenClaims, TokenErrorResponse, TokenResponse};
use hylandia_api::hytale::client::{
    authorize_url, check_nonce, exchanged_identity, id_token_kid, id_token_requirements, token_error_message, IdTokenError,
};
use hylandia_api::hytale::discovery::{
    discovery_url, find_signing_key, key_lookup_step, select_rsa_keys, should_refetch, Jwk, KeyLookup,
};
use hylandia_api::jwt::{JwtKeys, KeyLoadError, SigningAlgorithm};
use hylandia_api::routes::auth::login::{build_redirect, LoginQuery};

/// A fresh P-256 key pair: the private key as PKCS#8 PEM, the private key as
/// SEC1 PEM, and the public key as SPKI PEM.
fn fresh_key_pems() -> (String, String, String, p256::PublicKey) {
    let secret = p256::SecretKey::random(&mut rand::thread_rng());
    let pkcs8 = secret.to_pkcs8_pem(LineEnding::LF).unwrap().to_string();
    let sec1 = secret.to_sec1_pem(LineEnding::LF).unwrap().to_string();
    let public = secret.public_key();
    let public_pem = public.to_public_key_pem(LineEnding::LF).unwrap();
    (pkcs8, sec1, public_pem, public)
}

fn jwk(kid: &str, kty: &str, n: Option<&str>, e: Option<&str>) -> Jwk {
    Jwk { kid: kid.into(), kty: kty.into(), n: n.map(str::to_string), e: e.map(str::to_string) }
}

#[test]
fn discovery_url_strips_trailing_slashes() {
    assert_eq!(discovery_url("https://connect.accounts.hytale.com/"), "https://connect.accounts.hytale.com/.well-known/openid-configuration");
    assert_eq!(discovery_url("https://x"), "https://x/.well-known/openid-configuration");
}

#[test]
fn refetch_when_stale_forced_or_empty() {
    assert!(should_refetch(false, false, 0));
    assert!(should_refetch(true, true, 0));
    assert!(should_refetch(true, false, 3600));
    assert!(!should_refetch(true, false, 3599));
}

#[test]
fn only_usable_rsa_keys_are_kept() {
    let keys = select_rsa_keys(vec![
        jwk("a", "RSA", Some("AQAB"), Some("AQAB")),
        jwk("b", "EC", Some("AQAB"), Some("AQAB")),
        jwk("c", "RSA", None, Some("AQAB")),
        jwk("d", "RSA", Some("A"), Some("AQAB")),
        jwk("a", "RSA", Some("AQAC"), Some("AQAB")),
    ]);
    let kept: Vec<(&str, &str)> = keys.iter().map(|k| (k.kid.as_str(), k.n.as_str())).collect();
    assert_eq!(kept, vec![("a", "AQAB"), ("a", "AQAC")]);
    assert!(find_signing_key(&keys, "a").is_some());
    assert!(find_signing_key(&keys, "b").is_none());
    assert!(find_signing_key(&keys, "z").is_none());
}

#[test]
fn authorize_url_carries_pkce_request() {
    let u = authorize_url("https://connect.example/oauth2/auth", "cid", "https://api.example/cb", "openid hytale:profile", "st", "no", "ch").unwrap();
    assert_eq!(
        u,
        "https://connect.example/oauth2/auth?response_type=code&client_id=cid&redirect_uri=https%3A%2F%2Fapi.example%2Fcb&scope=openid+hytale%3Aprofile&state=st&nonce=no&code_challenge=ch&code_challenge_method=S256"
    );
    assert!(authorize_url("not a url", "c", "r", "s", "st", "n", "ch").is_err());
}

#[test]
fn login_redirect_keeps_state_for_callback() {
    let l = build_redirect("https://connect.example/auth", "cid", "https://api/cb", "openid", LoginQuery { redirect: Some("//evil".into()) }).unwrap();
    assert_eq!(l.oauth_state.redirect_path, "/");
    assert_eq!(l.oauth_state.state.len(), 22);
    assert_eq!(l.oauth_state.nonce.len(), 22);
    assert_eq!(l.oauth_state.verifier.len(), 43);
    assert!(l.authorize_url.contains(&format!("state={}", l.oauth_state.state)));
    assert!(l.authorize_url.contains("code_challenge_method=S256"));
    let l = build_redirect("https://connect.example/auth", "cid", "https://api/cb", "openid", LoginQuery { redirect: Some("/shop".into()) }).unwrap();
    assert_eq!(l.oauth_state.redirect_path, "/shop");
}

#[test]
fn token_error_messages() {
    assert_eq!(token_error_message(None), "unknown_error: ");
    assert_eq!(token_error_message(Some(TokenErrorResponse { error: "invalid_grant".into(), error_description: Some("expired".into()) })), "invalid_grant: expired");
    assert_eq!(token_error_message(Some(TokenErrorResponse { error: "invalid_grant".into(), error_description: None })), "invalid_grant: ");
}

#[test]
fn id_token_kid_from_header() {
    assert_eq!(id_token_kid("eyJhbGciOiJSUzI1NiIsImtpZCI6ImsxIn0.e30.sig").ok().as_deref(), Some("k1"));
    assert!(matches!(id_token_kid("eyJhbGciOiJSUzI1NiJ9.e30.sig"), Err(IdTokenError::MissingKid)));
    assert!(matches!(id_token_kid("garbage"), Err(IdTokenError::Header(_))));
    assert_eq!(IdTokenError::MissingKid.message().as_deref(), Some("id_token missing kid"));
}

#[test]
fn nonce_must_match() {
    let claims = |nonce: Option<&str>| IdTokenClaims { sub: "s".into(), nonce: nonce.map(str::to_string), profile: None };
    assert!(check_nonce(claims(Some("n1")), "n1").is_ok());
    assert!(matches!(check_nonce(claims(Some("n2")), "n1"), Err(IdTokenError::NonceMismatch)));
    assert!(matches!(check_nonce(claims(None), "n1"), Err(IdTokenError::NonceMismatch)));
    assert_eq!(IdTokenError::NonceMismatch.message().as_deref(), Some("id_token nonce mismatch"));
    let id = exchanged_identity(claims(Some("n1")), TokenResponse { access_token: "at".into(), id_token: "it".into(), scope: Some("openid".into()) });
    assert_eq!((id.sub.as_str(), id.access_token.as_str(), id.scope.as_deref()), ("s", "at", Some("openid")));
}

#[test]
fn jwt_keys_load_and_publish() {
    let (private_pem, _, public_pem, public) = fresh_key_pems();
    let keys = JwtKeys::load(&private_pem, &public_pem, "hylandia-web-api", "hylandia", 900).ok().unwrap();
    let digest = sha2::Sha256::digest(public_pem.as_bytes());
    let expected_kid = URL_SAFE_NO_PAD.encode(digest)[..16].to_string();
    assert_eq!(keys.kid(), expected_kid);
    let point = public.to_encoded_point(false);
    let jwk = keys.jwk();
    assert_eq!((jwk.kty.as_str(), jwk.crv.as_str(), jwk.alg.as_str(), jwk.use_.as_str()), ("EC", "P-256", "ES256", "sig"));
    assert_eq!(jwk.kid, expected_kid);
    assert_eq!(jwk.x, URL_SAFE_NO_PAD.encode(point.x().unwrap()));
    assert_eq!(jwk.y, URL_SAFE_NO_PAD.encode(point.y().unwrap()));
    assert_eq!(jwk.x.len(), 43);
    let claims = keys.access_claims("user-1", 1_000);
    assert_eq!((claims.sub.as_str(), claims.iss.as_str(), claims.aud.as_str(), claims.iat, claims.exp), ("user-1", "hylandia-web-api", "hylandia", 1_000, 1_900));
    assert_eq!(claims.jti.len(), 36);
}

#[test]
fn jwt_keys_refuse_bad_pems() {
    let (private_pem, sec1_pem, public_pem, _) = fresh_key_pems();
    assert!(matches!(JwtKeys::load("nope", &public_pem, "i", "a", 1), Err(KeyLoadError::Jwt(_))));
    assert!(matches!(JwtKeys::load(&sec1_pem, &public_pem, "i", "a", 1), Err(KeyLoadError::Jwt(_))));
    assert!(matches!(JwtKeys::load(&private_pem, "nope", "i", "a", 1), Err(KeyLoadError::Jwt(_))));
}

#[test]
fn unknown_kid_refreshes_once_then_fails() {
    let keys = select_rsa_keys(vec![jwk("a", "RSA", Some("AQAB"), Some("AQAB"))]);
    assert!(matches!(key_lookup_step(&keys, "a", false), KeyLookup::Found(_)));
    assert!(matches!(key_lookup_step(&keys, "a", true), KeyLookup::Found(_)));
    assert!(matches!(key_lookup_step(&keys, "z", false), KeyLookup::Refresh));
    match key_lookup_step(&keys, "z", true) {
        KeyLookup::Unknown(m) => assert_eq!(m, "unknown signing key: z"),
        _ => panic!("expected an unknown key"),
    }
    assert!(matches!(key_lookup_step(&Vec::new(), "a", false), KeyLookup::Refresh));
}

#[test]
fn kept_keys_are_built_from_their_own_components() {
    let n = "sXchDaQebHnPiGvyDOAT4saGEUetSyo9MKLOoWFsueri23bOdgWp4Dy1WlUzewbgBHod5pcM9H95GQRV3JDXboIRROSBigeC5yjU1hGzHHyXss8UDprecbAYxknTcQkhslANGRUZmdTOQ5qTRsLAt6BTYuyvVRdhS8exSZEy_c4gs_7svlJJQ4H9_NxsiIoLwAEk7-Q3UXERGYw_75IDrGA84-lA_-Ct4eTlXHBIY2EaV7t7LjJaynVJCpkv4LKjTTAumiGUIuQhrNhZLuF_RJLqHpM2kgWFLU7-VTdL1VbC2tejvcI2BlMkEpk1BzBZI0KQB0GaDWFLN-aEAw3vRw";
    let e = "AQAB";
    let keys = select_rsa_keys(vec![jwk("k", "RSA", Some(n), Some(e))]);
    assert_eq!(keys.len(), 1);
    assert_eq!((keys[0].n.as_str(), keys[0].e.as_str()), (n, e));
}

#[test]
fn token_requirements() {
    let r = id_token_requirements("https://connect.accounts.hytale.com", "client-1");
    assert_eq!(r.algorithm, SigningAlgorithm::Rs256);
    assert_eq!((r.issuer.as_str(), r.audience.as_str()), ("https://connect.accounts.hytale.com", "client-1"));

    let (private_pem, _, public_pem, _) = fresh_key_pems();
    let keys = JwtKeys::load(&private_pem, &public_pem, "hylandia-web-api", "hylandia", 900).ok().unwrap();
    let r = keys.access_token_requirements();
    assert_eq!(r.algorithm, SigningAlgorithm::Es256);
    assert_eq!((r.issuer.as_str(), r.audience.as_str()), ("hylandia-web-api", "hylandia"));
    let h = keys.access_token_header();
    assert_eq!(h.algorithm, SigningAlgorithm::Es256);
    assert_eq!(h.kid, keys.jwk().kid);
    assert_eq!(keys.jwk().alg, "ES256");
}

fn sign_and_check(signer: &JwtKeys, checker: &JwtKeys) -> bool {
    let claims = signer.access_claims("user-1", chrono::Utc::now().timestamp());
    let mut body = serde_json::Map::new();
    body.insert("sub".into(), serde_json::Value::String(claims.sub));
    body.insert("iss".into(), serde_json::Value::String(claims.iss));
    body.insert("aud".into(), serde_json::Value::String(claims.aud));
    body.insert("iat".into(), serde_json::Value::from(claims.iat));
    body.insert("exp".into(), serde_json::Value::from(claims.exp));
    let header = jsonwebtoken::Header::new(jsonwebtoken::Algorithm::ES256);
    let token = jsonwebtoken::encode(&header, &serde_json::Value::Object(body), signer.encoding_key()).unwrap();
    let mut validation = jsonwebtoken::Validation::new(jsonwebtoken::Algorithm::ES256);
    validation.set_issuer(&["hylandia-web-api"]);
    validation.set_audience(&["hylandia"]);
    jsonwebtoken::decode::<serde_json::Value>(&token, checker.decoding_key(), &validation).is_ok()
}

#[test]
fn loaded_keys_come_from_their_own_pems() {
    let (private_a, _, public_a, _) = fresh_key_pems();
    let (_, _, public_b, _) = fresh_key_pems();
    let keys_a = JwtKeys::load(&private_a, &public_a, "hylandia-web-api", "hylandia", 900).ok().unwrap();
    let mixed = JwtKeys::load(&private_a, &public_b, "hylandia-web-api", "hylandia", 900).ok().unwrap();
    assert!(sign_and_check(&keys_a, &keys_a));
    assert!(!sign_and_check(&keys_a, &mixed));
    assert!(!sign_and_check(&mixed, &mixed));
}

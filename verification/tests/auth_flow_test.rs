use axum_extra::extract::cookie::{Cookie, CookieJar};
use hylandia_api::cookies::OAUTH_COOKIE;
use hylandia_api::error::ApiError;
use hylandia_api::hytale::claims::HytaleProfile;
use hylandia_api::hytale::client::ExchangedIdentity;
use hylandia_api::routes::auth::callback::{
    check_callback, client_ip, display_username, post_login_redirect, CallbackQuery,
};
use hylandia_api::routes::auth::extract::{authenticated_user, presented_token, user_id_from_subject};
use hylandia_api::routes::auth::sign_in::{begin_sign_in, sign_in_step, SignInAction, SignInEvent};
use hylandia_api::routes::auth::oauth_state::{
    decode_state_json, encode_state_json, sanitize_redirect_path, saved_oauth_state, OauthState,
};

fn saved() -> OauthState {
    OauthState {
        state: "state".into(),
        nonce: "nonce".into(),
        verifier: "verifier".into(),
        redirect_path: "/account".into(),
    }
}

fn query(code: Option<&str>, state: Option<&str>, error: Option<&str>, desc: Option<&str>) -> CallbackQuery {
    CallbackQuery {
        code: code.map(str::to_string),
        state: state.map(str::to_string),
        error: error.map(str::to_string),
        error_description: desc.map(str::to_string),
    }
}

#[test]
fn sanitize_keeps_relative_paths() {
    assert_eq!(sanitize_redirect_path(Some("/account")), "/account");
    assert_eq!(sanitize_redirect_path(Some("/a/b?x=1")), "/a/b?x=1");
    assert_eq!(sanitize_redirect_path(Some("/")), "/");
}

#[test]
fn sanitize_rejects_other_origins() {
    assert_eq!(sanitize_redirect_path(None), "/");
    assert_eq!(sanitize_redirect_path(Some("")), "/");
    assert_eq!(sanitize_redirect_path(Some("//evil.example")), "/");
    assert_eq!(sanitize_redirect_path(Some("https://evil.example")), "/");
    assert_eq!(sanitize_redirect_path(Some("/x?next=https://evil")), "/");
    assert_eq!(sanitize_redirect_path(Some("account")), "/");
}

#[test]
fn sanitize_is_idempotent_on_examples() {
    for raw in ["/ok", "//bad", "x", "/a://b", ""] {
        let once = sanitize_redirect_path(Some(raw));
        assert_eq!(sanitize_redirect_path(Some(&once)), once);
    }
}

#[test]
fn state_cookie_value_round_trips() {
    let json = br#"{"state":"s","nonce":"n","verifier":"v","redirect_path":"/"}"#;
    let value = encode_state_json(json);
    assert!(!value.contains('='));
    assert_eq!(decode_state_json(&value).as_deref(), Some(&json[..]));
    assert_eq!(encode_state_json(b"\xfb\xff"), "-_8");
}

#[test]
fn state_cookie_value_rejects_non_base64() {
    assert_eq!(decode_state_json("a"), None);
    assert_eq!(decode_state_json("ab=="), None);
    assert_eq!(decode_state_json("a+b/"), None);
    assert_eq!(decode_state_json("ab!c"), None);
    assert_eq!(decode_state_json("QR"), None);
    assert_eq!(decode_state_json("QQ").as_deref(), Some(&b"A"[..]));
}

#[test]
fn callback_accepts_matching_state() {
    let r = check_callback(&saved(), query(Some("code-1"), Some("state"), None, None));
    assert_eq!(r.unwrap(), "code-1");
}

#[test]
fn callback_reports_hytale_error_first() {
    match check_callback(&saved(), query(Some("c"), Some("other"), Some("access_denied"), Some("user said no"))) {
        Err(ApiError::HytaleAuth(m)) => assert_eq!(m, "access_denied: user said no"),
        other => panic!("{other:?}"),
    }
    match check_callback(&saved(), query(None, None, Some("access_denied"), None)) {
        Err(e @ ApiError::HytaleAuth(_)) => {
            assert_eq!(e.message(), "hytale sign-in failed: access_denied: ");
            assert_eq!(e.status(), 400);
        }
        other => panic!("{other:?}"),
    }
}

#[test]
fn callback_rejects_missing_or_wrong_parts() {
    let msg = |r: Result<String, ApiError>| match r {
        Err(ApiError::BadRequest(m)) => m,
        other => panic!("{other:?}"),
    };
    assert_eq!(msg(check_callback(&saved(), query(None, Some("state"), None, None))), "missing code");
    assert_eq!(msg(check_callback(&saved(), query(Some("c"), None, None, None))), "missing state");
    assert_eq!(msg(check_callback(&saved(), query(Some("c"), Some("statE"), None, None))), "state mismatch");
}

#[test]
fn username_prefers_profile() {
    let with = ExchangedIdentity {
        sub: "sub-1".into(),
        profile: Some(HytaleProfile { username: "Steve".into() }),
        scope: None,
        access_token: "at".into(),
    };
    assert_eq!(display_username(&with), "Steve");
    let without = ExchangedIdentity { profile: None, ..with };
    assert_eq!(display_username(&without), "sub-1");
}

#[test]
fn redirect_joins_frontend_and_path() {
    assert_eq!(post_login_redirect("https://hylandia.example", "/account"), "https://hylandia.example/account");
}

#[test]
fn client_ip_prefers_fly_header() {
    let ip = client_ip(Some(" 203.0.113.7 "), Some("198.51.100.1")).unwrap();
    assert_eq!(ip.to_string(), "203.0.113.7/32");
    let ip = client_ip(None, Some("198.51.100.1, 10.0.0.1")).unwrap();
    assert_eq!(ip.to_string(), "198.51.100.1/32");
    let ip = client_ip(None, Some("2001:db8::1")).unwrap();
    assert_eq!(ip.to_string(), "2001:db8::1/128");
}

#[test]
fn client_ip_none_when_unparsable_or_absent() {
    assert!(client_ip(None, None).is_none());
    assert!(client_ip(Some("not-an-ip"), Some("198.51.100.1")).is_none());
    assert!(client_ip(None, Some(",198.51.100.1")).is_none());
}

#[test]
fn cookie_token_wins_over_bearer_header() {
    assert_eq!(presented_token(Some("c".into()), Some("Bearer h")).as_deref(), Some("c"));
    assert_eq!(presented_token(None, Some("Bearer h.t")).as_deref(), Some("h.t"));
    assert_eq!(presented_token(None, Some("bearer h")), None);
    assert_eq!(presented_token(None, Some("Bearer")), None);
    assert_eq!(presented_token(None, Some("Bearer ")).as_deref(), Some(""));
    assert_eq!(presented_token(None, None), None);
}

#[test]
fn subject_must_be_a_uuid() {
    let id = user_id_from_subject("67e55044-10b1-426f-9247-bb680e5fe0c8").unwrap();
    assert_eq!(id.to_string(), "67e55044-10b1-426f-9247-bb680e5fe0c8");
    assert!(user_id_from_subject("67e5504410b1426f9247bb680e5fe0c8").is_some());
    assert!(user_id_from_subject("user-1").is_none());
    assert!(user_id_from_subject("").is_none());
}

fn state_json(s: &OauthState) -> Vec<u8> {
    let mut map = serde_json::Map::new();
    map.insert("state".into(), serde_json::Value::String(s.state.clone()));
    map.insert("nonce".into(), serde_json::Value::String(s.nonce.clone()));
    map.insert("verifier".into(), serde_json::Value::String(s.verifier.clone()));
    map.insert("redirect_path".into(), serde_json::Value::String(s.redirect_path.clone()));
    serde_json::to_vec(&serde_json::Value::Object(map)).unwrap()
}

fn state_from_json(json: &[u8]) -> Option<OauthState> {
    let value: serde_json::Value = serde_json::from_slice(json).ok()?;
    let field = |name: &str| value.get(name).and_then(|v| v.as_str()).map(str::to_string);
    Some(OauthState {
        state: field("state")?,
        nonce: field("nonce")?,
        verifier: field("verifier")?,
        redirect_path: field("redirect_path")?,
    })
}

/// The callback reads its state cookie: unframe, parse, and accept or refuse.
fn read_state_cookie(jar: &CookieJar) -> Result<OauthState, ApiError> {
    saved_oauth_state(
        jar.get(OAUTH_COOKIE).and_then(|c| decode_state_json(c.value())).and_then(|j| state_from_json(&j)),
    )
}

#[test]
fn oauth_state_is_decoded_before_clear_cookie_replaces_it() {
    let expected = saved();
    let jar = CookieJar::new().add(Cookie::new(OAUTH_COOKIE, encode_state_json(&state_json(&expected))));
    let clear_cookie = Cookie::new(OAUTH_COOKIE, "");

    let saved = read_state_cookie(&jar);
    let cleared = jar.add(clear_cookie);
    let saved = saved.ok().expect("state cookie should be read before it is cleared");

    assert_eq!(saved.state, expected.state);
    assert_eq!(saved.nonce, expected.nonce);
    assert_eq!(saved.verifier, expected.verifier);
    assert_eq!(saved.redirect_path, expected.redirect_path);
    assert_eq!(cleared.get(OAUTH_COOKIE).map(|cookie| cookie.value()), Some(""));
}

#[test]
fn missing_or_garbled_state_cookie_is_refused() {
    for jar in [
        CookieJar::new(),
        CookieJar::new().add(Cookie::new(OAUTH_COOKIE, "not base64!")),
        CookieJar::new().add(Cookie::new(OAUTH_COOKIE, encode_state_json(b"{}"))),
    ] {
        match read_state_cookie(&jar) {
            Err(ApiError::BadRequest(m)) => assert_eq!(m, "missing or expired oauth state"),
            _ => panic!("expected a bad request"),
        }
    }
}

#[test]
fn state_cookie_value_is_cookie_safe() {
    let all: Vec<u8> = (0..=255u8).collect();
    let value = encode_state_json(&all);
    assert!(value.chars().all(|c| c.is_ascii_alphanumeric() || c == '-' || c == '_'));
    assert_eq!(value.len(), 342);
}

#[test]
fn client_ip_doc_example() {
    let ip = client_ip(Some("198.51.100.2"), Some("203.0.113.7, 10.0.0.1")).unwrap();
    assert_eq!(ip, "198.51.100.2/32".parse::<ipnetwork::IpNetwork>().unwrap());
    let ip = client_ip(None, Some("203.0.113.7, 10.0.0.1")).unwrap();
    assert_eq!(ip, "203.0.113.7/32".parse::<ipnetwork::IpNetwork>().unwrap());
    let ip = client_ip(Some("10.1.0.0/16"), None).unwrap();
    assert_eq!(ip.to_string(), "10.1.0.0/16");
    assert_eq!(client_ip(None, None), None);
}

#[test]
fn subject_reads_as_the_uuid_it_spells() {
    let expected = uuid::Uuid::parse_str("67e55044-10b1-426f-9247-bb680e5fe0c8").unwrap();
    assert_eq!(user_id_from_subject("67e55044-10b1-426f-9247-bb680e5fe0c8"), Some(expected));
    assert_eq!(user_id_from_subject("{67e55044-10b1-426f-9247-bb680e5fe0c8}"), Some(expected));
    assert_eq!(user_id_from_subject("urn:uuid:67e55044-10b1-426f-9247-bb680e5fe0c8"), Some(expected));
    assert_eq!(user_id_from_subject("00000000-0000-0000-0000-000000000000"), Some(uuid::Uuid::nil()));
}

#[test]
fn every_authentication_failure_is_unauthorized() {
    let id = uuid::Uuid::parse_str("67e55044-10b1-426f-9247-bb680e5fe0c8").unwrap();
    assert!(matches!(authenticated_user(Some("67e55044-10b1-426f-9247-bb680e5fe0c8")), Ok(u) if u == id));
    assert!(matches!(authenticated_user(Some("user-1")), Err(ApiError::Unauthorized)));
    assert!(matches!(authenticated_user(None), Err(ApiError::Unauthorized)));
}

fn identity(profile: Option<&str>) -> ExchangedIdentity {
    ExchangedIdentity {
        sub: "hytale-sub".into(),
        profile: profile.map(|u| HytaleProfile { username: u.into() }),
        scope: Some("openid".into()),
        access_token: "hytale-at".into(),
    }
}

#[test]
fn sign_in_runs_its_steps_in_order() {
    let user_id = uuid::Uuid::parse_str("67e55044-10b1-426f-9247-bb680e5fe0c8").unwrap();
    let (sign_in, action) = begin_sign_in(saved(), query(Some("c0de"), Some("state"), None, None), "https://hylandia.example");
    match action {
        SignInAction::Exchange { code, verifier, nonce } => {
            assert_eq!((code.as_str(), verifier.as_str(), nonce.as_str()), ("c0de", "verifier", "nonce"))
        }
        _ => panic!("expected the code exchange"),
    }
    let (sign_in, action) = sign_in_step(sign_in.unwrap(), SignInEvent::Exchanged(Ok(identity(Some("Steve")))));
    match action {
        SignInAction::StoreUser { sub, username } => assert_eq!((sub.as_str(), username.as_str()), ("hytale-sub", "Steve")),
        _ => panic!("expected the user write"),
    }
    let (sign_in, action) = sign_in_step(sign_in.unwrap(), SignInEvent::UserStored(Ok(user_id)));
    match action {
        SignInAction::StoreAccount { user_id: u, sub, access_token, scope } => {
            assert_eq!(u, user_id);
            assert_eq!((sub.as_str(), access_token.as_str(), scope.as_deref()), ("hytale-sub", "hytale-at", Some("openid")));
        }
        _ => panic!("expected the account write"),
    }
    let (sign_in, action) = sign_in_step(sign_in.unwrap(), SignInEvent::AccountStored(Ok(())));
    assert!(matches!(action, SignInAction::OpenSession { user_id: u } if u == user_id));
    let (sign_in, action) = sign_in_step(sign_in.unwrap(), SignInEvent::SessionOpened(Ok(())));
    assert!(sign_in.is_none());
    match action {
        SignInAction::Finish { redirect_to } => assert_eq!(redirect_to, "https://hylandia.example/account"),
        _ => panic!("expected the end of the sign-in"),
    }
}

#[test]
fn refused_redirect_starts_nothing() {
    let (sign_in, action) = begin_sign_in(saved(), query(Some("c0de"), Some("other"), None, None), "https://x");
    assert!(sign_in.is_none());
    assert!(matches!(action, SignInAction::Fail(ApiError::BadRequest(m)) if m == "state mismatch"));
    let (sign_in, action) = begin_sign_in(saved(), query(None, None, Some("access_denied"), Some("no")), "https://x");
    assert!(sign_in.is_none());
    assert!(matches!(action, SignInAction::Fail(ApiError::HytaleAuth(m)) if m == "access_denied: no"));
}

#[test]
fn failed_sign_in_step_ends_it() {
    let start = || begin_sign_in(saved(), query(Some("c"), Some("state"), None, None), "https://x").0.unwrap();
    let (next, action) = sign_in_step(start(), SignInEvent::Exchanged(Err("id_token nonce mismatch".into())));
    assert!(next.is_none());
    assert!(matches!(action, SignInAction::Fail(ApiError::HytaleAuth(m)) if m == "id_token nonce mismatch"));
    let (next, _) = sign_in_step(start(), SignInEvent::Exchanged(Ok(identity(None))));
    let next = next.unwrap();
    assert!(!next.awaits(&SignInEvent::AccountStored(Ok(()))));
    assert!(next.awaits(&SignInEvent::UserStored(Ok(uuid::Uuid::nil()))));
    let (after, action) = sign_in_step(next, SignInEvent::UserStored(Err(ApiError::Database("down".into()))));
    assert!(after.is_none());
    assert!(matches!(action, SignInAction::Fail(ApiError::Database(m)) if m == "down"));
}

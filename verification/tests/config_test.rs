use hylandia_api::config::{Config, ConfigError, EnvVars, LogFormat};

fn full_env() -> EnvVars {
    EnvVars {
        port: None,
        log_format: None,
        database_url: Some("postgres://db".to_string()),
        hytale_issuer: None,
        hytale_client_id: Some("client".to_string()),
        hytale_client_secret: Some("secret".to_string()),
        hytale_redirect_uri: Some("https://api.example/auth/hytale/callback".to_string()),
        hytale_scopes: None,
        jwt_private_key_pem: Some("private".to_string()),
        jwt_public_key_pem: Some("public".to_string()),
        jwt_issuer: None,
        jwt_audience: None,
        access_token_ttl_secs: None,
        refresh_token_ttl_secs: None,
        frontend_url: Some("https://hylandia.example//".to_string()),
        cookie_domain: None,
        cookie_secure: None,
        sentry_dsn: None,
        run_env: None,
    }
}

fn missing(r: Result<Config, ConfigError>) -> String {
    match r {
        Err(ConfigError::MissingVar(k)) => k,
        Ok(_) => panic!("expected an error"),
    }
}

#[test]
fn defaults_apply_when_optional_vars_are_unset() {
    let c = Config::from_vars(&full_env()).unwrap();
    assert_eq!(c.port, 8080);
    assert_eq!(c.log_format, LogFormat::Text);
    assert_eq!(c.hytale_issuer, "https://connect.accounts.hytale.com");
    assert_eq!(c.hytale_scopes, "openid hytale:profile");
    assert_eq!(c.jwt_issuer, "hylandia-web-api");
    assert_eq!(c.jwt_audience, "hylandia");
    assert_eq!(c.access_token_ttl_secs, 900);
    assert_eq!(c.refresh_token_ttl_secs, 2592000);
    assert_eq!(c.cookie_domain, "");
    assert!(c.cookie_secure);
    assert_eq!(c.sentry_dsn, None);
}

#[test]
fn frontend_url_loses_trailing_slashes() {
    let c = Config::from_vars(&full_env()).unwrap();
    assert_eq!(c.frontend_url, "https://hylandia.example");
}

#[test]
fn numeric_vars_parse_like_std() {
    let mut e = full_env();
    e.port = Some("+3000".to_string());
    e.access_token_ttl_secs = Some("-5".to_string());
    e.refresh_token_ttl_secs = Some("007".to_string());
    let c = Config::from_vars(&e).unwrap();
    assert_eq!(c.port, 3000);
    assert_eq!(c.access_token_ttl_secs, -5);
    assert_eq!(c.refresh_token_ttl_secs, 7);
    assert_eq!("+3000".parse::<u16>().unwrap(), 3000);
}

#[test]
fn bad_numbers_fall_back_to_defaults() {
    for bad in ["", "+", "-1", "65536", " 80", "80 ", "8_0", "0x50"] {
        let mut e = full_env();
        e.port = Some(bad.to_string());
        assert_eq!(Config::from_vars(&e).unwrap().port, 8080, "{bad:?}");
        assert!(bad.parse::<u16>().is_err());
    }
    let mut e = full_env();
    e.port = Some("65535".to_string());
    assert_eq!(Config::from_vars(&e).unwrap().port, 65535);
    for bad in ["9223372036854775808", "-", "1.5", "--1"] {
        let mut e = full_env();
        e.access_token_ttl_secs = Some(bad.to_string());
        assert_eq!(Config::from_vars(&e).unwrap().access_token_ttl_secs, 900, "{bad:?}");
        assert!(bad.parse::<i64>().is_err());
    }
    let mut e = full_env();
    e.access_token_ttl_secs = Some("-9223372036854775808".to_string());
    assert_eq!(Config::from_vars(&e).unwrap().access_token_ttl_secs, i64::MIN);
    e.access_token_ttl_secs = Some("9223372036854775807".to_string());
    assert_eq!(Config::from_vars(&e).unwrap().access_token_ttl_secs, i64::MAX);
}

#[test]
fn log_format_json_only_when_exactly_json() {
    let mut e = full_env();
    e.log_format = Some("json".to_string());
    assert_eq!(Config::from_vars(&e).unwrap().log_format, LogFormat::Json);
    e.log_format = Some("JSON".to_string());
    assert_eq!(Config::from_vars(&e).unwrap().log_format, LogFormat::Text);
}

#[test]
fn cookie_secure_off_only_for_false_in_any_case() {
    let mut e = full_env();
    e.cookie_secure = Some("FaLsE".to_string());
    assert!(!Config::from_vars(&e).unwrap().cookie_secure);
    e.cookie_secure = Some("0".to_string());
    assert!(Config::from_vars(&e).unwrap().cookie_secure);
    e.cookie_secure = Some(" false".to_string());
    assert!(Config::from_vars(&e).unwrap().cookie_secure);
}

#[test]
fn blank_required_vars_are_missing_in_order() {
    let mut e = full_env();
    e.database_url = Some(" \t\n".to_string());
    e.frontend_url = None;
    assert_eq!(missing(Config::from_vars(&e)), "DATABASE_URL");
    let mut e = full_env();
    e.hytale_client_secret = Some("\u{3000}".to_string());
    e.jwt_public_key_pem = None;
    assert_eq!(missing(Config::from_vars(&e)), "HYTALE_CLIENT_SECRET");
    let mut e = full_env();
    e.frontend_url = Some(String::new());
    let err = Config::from_vars(&e).err().unwrap();
    assert_eq!(err.message(), "FRONTEND_URL must be set");
}

#[test]
fn every_required_var_is_reported() {
    let names = [
        "DATABASE_URL",
        "HYTALE_CLIENT_ID",
        "HYTALE_CLIENT_SECRET",
        "HYTALE_REDIRECT_URI",
        "JWT_PRIVATE_KEY_PEM",
        "JWT_PUBLIC_KEY_PEM",
        "FRONTEND_URL",
    ];
    for (i, name) in names.iter().enumerate() {
        let mut e = full_env();
        match i {
            0 => e.database_url = None,
            1 => e.hytale_client_id = None,
            2 => e.hytale_client_secret = None,
            3 => e.hytale_redirect_uri = None,
            4 => e.jwt_private_key_pem = None,
            5 => e.jwt_public_key_pem = None,
            _ => e.frontend_url = None,
        }
        assert_eq!(missing(Config::from_vars(&e)), *name);
    }
}

#[test]
fn sentry_dsn_kept_only_when_not_blank() {
    let mut e = full_env();
    e.sentry_dsn = Some("  ".to_string());
    assert_eq!(Config::from_vars(&e).unwrap().sentry_dsn, None);
    e.sentry_dsn = Some("https://sentry.example/1".to_string());
    assert_eq!(Config::from_vars(&e).unwrap().sentry_dsn.as_deref(), Some("https://sentry.example/1"));
    e.hytale_issuer = Some(String::new());
    assert_eq!(Config::from_vars(&e).unwrap().hytale_issuer, "");
}

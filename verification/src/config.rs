//! Environment-driven configuration. Reading the process environment happens
//! at the edge; this module turns the raw values into a `Config`.

use vstd::prelude::*;

use crate::text::{
    all_digits, eq_ignore_ascii_case, eq_ignore_ascii_case_str, is_blank, is_blank_str, parse_i64,
    parse_signed, parse_u16, parse_unsigned, trim_end_slashes, trim_end_slashes_str,
};

verus! {

#[derive(Debug, Clone, Copy, PartialEq, Eq, Structural)]
pub enum LogFormat {
    Text,
    Json,
}

#[derive(Debug, Clone)]
pub struct Config {
    pub port: u16,
    pub log_format: LogFormat,
    pub database_url: String,
    /// `https://connect.accounts.hytale.com` — overridable for testing against a mock issuer.
    pub hytale_issuer: String,
    pub hytale_client_id: String,
    pub hytale_client_secret: String,
    /// Must exactly match one of the URIs registered for this client.
    pub hytale_redirect_uri: String,
    /// Space-separated scope string sent on every `/oauth2/auth` request.
    pub hytale_scopes: String,
    /// ES256 private key, PEM (SEC1 or PKCS8).
    pub jwt_private_key_pem: String,
    /// ES256 public key, PEM.
    pub jwt_public_key_pem: String,
    pub jwt_issuer: String,
    pub jwt_audience: String,
    pub access_token_ttl_secs: i64,
    pub refresh_token_ttl_secs: i64,
    /// Origin the browser is redirected back to after login (also the only
    /// origin `redirect_after` is allowed to point at).
    pub frontend_url: String,
    /// `Domain=` attribute for session cookies. Empty means host-only.
    pub cookie_domain: String,
    /// Set false only for plain-http local dev; cookies otherwise require `Secure`.
    pub cookie_secure: bool,
    /// Optional. When set, errors are reported to Sentry.
    pub sentry_dsn: Option<String>,
}

/// The raw value of each environment variable the service reads; `None`
/// where the variable is unset or not valid Unicode.
#[derive(Debug, Clone)]
pub struct EnvVars {
    pub port: Option<String>,
    pub log_format: Option<String>,
    pub database_url: Option<String>,
    pub hytale_issuer: Option<String>,
    pub hytale_client_id: Option<String>,
    pub hytale_client_secret: Option<String>,
    pub hytale_redirect_uri: Option<String>,
    pub hytale_scopes: Option<String>,
    pub jwt_private_key_pem: Option<String>,
    pub jwt_public_key_pem: Option<String>,
    pub jwt_issuer: Option<String>,
    pub jwt_audience: Option<String>,
    pub access_token_ttl_secs: Option<String>,
    pub refresh_token_ttl_secs: Option<String>,
    pub frontend_url: Option<String>,
    pub cookie_domain: Option<String>,
    pub cookie_secure: Option<String>,
    pub sentry_dsn: Option<String>,
    pub run_env: Option<String>,
}

/// A required variable is unset or blank; holds the variable's name.
#[derive(Debug, Clone)]
pub enum ConfigError {
    MissingVar(String),
}

impl ConfigError {
    /// The message the service reports, `"<NAME> must be set"`.
    pub fn message(&self) -> (m: String)
        ensures
            m@ == self.spec_message(),
    {
        match self {
            ConfigError::MissingVar(key) => {
                let mut m = key.clone();
                m.append(" must be set");
                m
            },
        }
    }

    pub open spec fn spec_message(&self) -> Seq<char> {
        match self {
            ConfigError::MissingVar(key) => key@ + " must be set"@,
        }
    }
}

pub open spec fn opt_view(v: Option<String>) -> Option<Seq<char>> {
    match v {
        Some(s) => Some(s@),
        None => None,
    }
}

/// A required variable: present and not blank.
pub open spec fn required_value(v: Option<String>) -> Option<Seq<char>> {
    match v {
        Some(s) => if is_blank(s@) {
            None
        } else {
            Some(s@)
        },
        None => None,
    }
}

/// An optional variable with a default used when it is unset.
pub open spec fn value_or(v: Option<String>, default: Seq<char>) -> Seq<char> {
    match v {
        Some(s) => s@,
        None => default,
    }
}

pub open spec fn spec_port(v: Option<String>) -> u16 {
    match v {
        Some(s) => match parse_unsigned(s@, 0xffff) {
            Some(n) => n as u16,
            None => 8080,
        },
        None => 8080,
    }
}

pub open spec fn spec_ttl(v: Option<String>, default: i64) -> i64 {
    match v {
        Some(s) => match parse_signed(s@, 0x7fff_ffff_ffff_ffff) {
            Some(n) => n as i64,
            None => default,
        },
        None => default,
    }
}

pub open spec fn spec_log_format(v: Option<String>) -> LogFormat {
    match v {
        Some(s) => if s@ == "json"@ {
            LogFormat::Json
        } else {
            LogFormat::Text
        },
        None => LogFormat::Text,
    }
}

pub open spec fn spec_cookie_secure(v: Option<String>) -> bool {
    match v {
        Some(s) => !eq_ignore_ascii_case(s@, "false"@),
        None => true,
    }
}

/// The name of the first required variable, in the order the service checks
/// them, that is unset or blank.
pub open spec fn first_missing(vars: EnvVars) -> Option<Seq<char>> {
    if required_value(vars.database_url) is None {
        Some("DATABASE_URL"@)
    } else if required_value(vars.hytale_client_id) is None {
        Some("HYTALE_CLIENT_ID"@)
    } else if required_value(vars.hytale_client_secret) is None {
        Some("HYTALE_CLIENT_SECRET"@)
    } else if required_value(vars.hytale_redirect_uri) is None {
        Some("HYTALE_REDIRECT_URI"@)
    } else if required_value(vars.jwt_private_key_pem) is None {
        Some("JWT_PRIVATE_KEY_PEM"@)
    } else if required_value(vars.jwt_public_key_pem) is None {
        Some("JWT_PUBLIC_KEY_PEM"@)
    } else if required_value(vars.frontend_url) is None {
        Some("FRONTEND_URL"@)
    } else {
        None
    }
}

/// `c` is the configuration that `vars` describe, all required variables
/// being present.
pub open spec fn config_from(vars: EnvVars, c: Config) -> bool {
    &&& c.port == spec_port(vars.port)
    &&& c.log_format == spec_log_format(vars.log_format)
    &&& Some(c.database_url@) == required_value(vars.database_url)
    &&& c.hytale_issuer@ == value_or(vars.hytale_issuer, "https://connect.accounts.hytale.com"@)
    &&& Some(c.hytale_client_id@) == required_value(vars.hytale_client_id)
    &&& Some(c.hytale_client_secret@) == required_value(vars.hytale_client_secret)
    &&& Some(c.hytale_redirect_uri@) == required_value(vars.hytale_redirect_uri)
    &&& c.hytale_scopes@ == value_or(vars.hytale_scopes, "openid hytale:profile"@)
    &&& Some(c.jwt_private_key_pem@) == required_value(vars.jwt_private_key_pem)
    &&& Some(c.jwt_public_key_pem@) == required_value(vars.jwt_public_key_pem)
    &&& c.jwt_issuer@ == value_or(vars.jwt_issuer, "hylandia-web-api"@)
    &&& c.jwt_audience@ == value_or(vars.jwt_audience, "hylandia"@)
    &&& c.access_token_ttl_secs == spec_ttl(vars.access_token_ttl_secs, 900)
    &&& c.refresh_token_ttl_secs == spec_ttl(vars.refresh_token_ttl_secs, 2592000)
    &&& c.frontend_url@ == trim_end_slashes(required_value(vars.frontend_url)->Some_0)
    &&& c.cookie_domain@ == value_or(vars.cookie_domain, Seq::empty())
    &&& c.cookie_secure == spec_cookie_secure(vars.cookie_secure)
    &&& opt_view(c.sentry_dsn) == (match required_value(vars.sentry_dsn) {
        Some(s) => Some(s),
        None => None,
    })
}

/// The configured frontend origin never ends in `/`, so the origin followed
/// by a path that starts with `/` has exactly one slash between them.
pub proof fn lemma_frontend_url_has_no_trailing_slash(vars: EnvVars, c: Config)
    requires
        first_missing(vars) is None,
        config_from(vars, c),
    ensures
        c.frontend_url@.len() == 0 || c.frontend_url@.last() != '/',
{
    crate::text::lemma_trim_end_slashes_no_trailing_slash(required_value(vars.frontend_url)->Some_0);
}

/// The value of a required variable, or the error that names it.
fn require(v: &Option<String>, key: &str) -> (r: Result<String, ConfigError>)
    ensures
        match r {
            Ok(s) => required_value(*v) == Some(s@),
            Err(ConfigError::MissingVar(k)) => required_value(*v) is None && k@ == key@,
        },
{
    match v {
        Some(s) => {
            if is_blank_str(s.as_str()) {
                Err(ConfigError::MissingVar(key.to_owned()))
            } else {
                Ok(s.clone())
            }
        },
        None => Err(ConfigError::MissingVar(key.to_owned())),
    }
}

/// The value of an optional variable, or `default` when it is unset.
fn or_default(v: &Option<String>, default: &str) -> (r: String)
    ensures
        r@ == value_or(*v, default@),
{
    match v {
        Some(s) => s.clone(),
        None => default.to_owned(),
    }
}

fn ttl_or(v: &Option<String>, default: i64) -> (r: i64)
    ensures
        r == spec_ttl(*v, default),
{
    match v {
        Some(s) => match parse_i64(s.as_str()) {
            Some(n) => n,
            None => default,
        },
        None => default,
    }
}

impl Config {
    /// Builds the configuration from raw environment values: defaults for the
    /// optional variables, an error naming the first required variable that is
    /// unset or blank.
    pub fn from_vars(vars: &EnvVars) -> (r: Result<Config, ConfigError>)
        ensures
            match r {
                Ok(c) => first_missing(*vars) is None && config_from(*vars, c),
                Err(e) => first_missing(*vars) == Some(e->MissingVar_0@),
            },
    {
        let port = match &vars.port {
            Some(v) => match parse_u16(v.as_str()) {
                Some(p) => p,
                None => 8080,
            },
            None => 8080,
        };
        let log_format = match &vars.log_format {
            Some(v) => {
                let json = "json";
                proof {
                    reveal_strlit("json");
                }
                if crate::text::str_eq(v.as_str(), json) {
                    LogFormat::Json
                } else {
                    LogFormat::Text
                }
            },
            None => LogFormat::Text,
        };
        let database_url = require(&vars.database_url, "DATABASE_URL")?;
        let hytale_issuer = or_default(&vars.hytale_issuer, "https://connect.accounts.hytale.com");
        let hytale_client_id = require(&vars.hytale_client_id, "HYTALE_CLIENT_ID")?;
        let hytale_client_secret = require(&vars.hytale_client_secret, "HYTALE_CLIENT_SECRET")?;
        let hytale_redirect_uri = require(&vars.hytale_redirect_uri, "HYTALE_REDIRECT_URI")?;
        let hytale_scopes = or_default(&vars.hytale_scopes, "openid hytale:profile");
        let jwt_private_key_pem = require(&vars.jwt_private_key_pem, "JWT_PRIVATE_KEY_PEM")?;
        let jwt_public_key_pem = require(&vars.jwt_public_key_pem, "JWT_PUBLIC_KEY_PEM")?;
        let jwt_issuer = or_default(&vars.jwt_issuer, "hylandia-web-api");
        let jwt_audience = or_default(&vars.jwt_audience, "hylandia");
        let access_token_ttl_secs = ttl_or(&vars.access_token_ttl_secs, 900);
        let refresh_token_ttl_secs = ttl_or(&vars.refresh_token_ttl_secs, 2592000);
        let frontend_raw = require(&vars.frontend_url, "FRONTEND_URL")?;
        let frontend_url = trim_end_slashes_str(frontend_raw.as_str());
        let cookie_domain = match &vars.cookie_domain {
            Some(s) => s.clone(),
            None => String::new(),
        };
        let cookie_secure = match &vars.cookie_secure {
            Some(v) => !eq_ignore_ascii_case_str(v.as_str(), "false"),
            None => true,
        };
        let sentry_dsn = match &vars.sentry_dsn {
            Some(v) => if is_blank_str(v.as_str()) {
                None
            } else {
                Some(v.clone())
            },
            None => None,
        };
        Ok(Config {
            port,
            log_format,
            database_url,
            hytale_issuer,
            hytale_client_id,
            hytale_client_secret,
            hytale_redirect_uri,
            hytale_scopes,
            jwt_private_key_pem,
            jwt_public_key_pem,
            jwt_issuer,
            jwt_audience,
            access_token_ttl_secs,
            refresh_token_ttl_secs,
            frontend_url,
            cookie_domain,
            cookie_secure,
            sentry_dsn,
        })
    }
}

/// A parsed port fits a `u16`, and a parsed duration an `i64`.
proof fn lemma_parsed_numbers_fit(v: Option<String>)
    ensures
        v matches Some(s) ==> (parse_unsigned(s@, 0xffff) matches Some(n) ==> 0 <= n <= 0xffff),
        v matches Some(s) ==> (parse_signed(s@, 0x7fff_ffff_ffff_ffff) matches Some(n) ==> i64::MIN
            <= n <= i64::MAX),
{
    match v {
        Some(s) => {
            let t = s@;
            let b1 = if t.len() > 0 && t[0] == '+' { t.drop_first() } else { t };
            if all_digits(b1) {
                crate::text::lemma_digits_value_nonneg(b1);
            }
            let b2 = if t.len() > 0 && (t[0] == '+' || t[0] == '-') { t.drop_first() } else { t };
            if all_digits(b2) {
                crate::text::lemma_digits_value_nonneg(b2);
            }
        },
        None => {},
    }
}

/// What each variable does to the loaded configuration: an optional text
/// variable that is set is taken as it is (its default only when unset), a
/// required one is taken as it is, the frontend origin loses only its
/// trailing slashes, cookies are secure unless `COOKIE_SECURE` says `false`,
/// logs are JSON only for `json`, and unset numbers take their defaults.
pub proof fn lemma_config_takes_what_is_set(vars: EnvVars, c: Config)
    requires
        first_missing(vars) is None,
        config_from(vars, c),
    ensures
        vars.cookie_domain matches Some(v) ==> c.cookie_domain@ == v@,
        vars.cookie_domain is None ==> c.cookie_domain@ == Seq::<char>::empty(),
        vars.hytale_issuer matches Some(v) ==> c.hytale_issuer@ == v@,
        vars.hytale_issuer is None ==> c.hytale_issuer@ == "https://connect.accounts.hytale.com"@,
        vars.hytale_scopes matches Some(v) ==> c.hytale_scopes@ == v@,
        vars.hytale_scopes is None ==> c.hytale_scopes@ == "openid hytale:profile"@,
        vars.jwt_issuer matches Some(v) ==> c.jwt_issuer@ == v@,
        vars.jwt_issuer is None ==> c.jwt_issuer@ == "hylandia-web-api"@,
        vars.jwt_audience matches Some(v) ==> c.jwt_audience@ == v@,
        vars.jwt_audience is None ==> c.jwt_audience@ == "hylandia"@,
        vars.database_url matches Some(v) && c.database_url@ == v@,
        vars.hytale_client_id matches Some(v) && c.hytale_client_id@ == v@,
        vars.hytale_client_secret matches Some(v) && c.hytale_client_secret@ == v@,
        vars.hytale_redirect_uri matches Some(v) && c.hytale_redirect_uri@ == v@,
        vars.jwt_private_key_pem matches Some(v) && c.jwt_private_key_pem@ == v@,
        vars.jwt_public_key_pem matches Some(v) && c.jwt_public_key_pem@ == v@,
        vars.frontend_url matches Some(v) && c.frontend_url@ == v@.take(c.frontend_url@.len() as int)
            && (forall|i: int| c.frontend_url@.len() <= i < v@.len() ==> #[trigger] v@[i] == '/'),
        vars.frontend_url matches Some(v) ==> (v@.last() != '/' ==> c.frontend_url@ == v@),
        vars.cookie_secure is None ==> c.cookie_secure,
        vars.cookie_secure matches Some(v) ==> ((v@ == "false"@ || v@ == "FALSE"@ || v@
            == "False"@) ==> !c.cookie_secure),
        vars.cookie_secure matches Some(v) ==> (v@ == "true"@ ==> c.cookie_secure),
        vars.log_format matches Some(v) ==> (v@ == "json"@ <==> c.log_format == LogFormat::Json),
        vars.log_format is None ==> c.log_format == LogFormat::Text,
        vars.port is None ==> c.port == 8080,
        vars.access_token_ttl_secs is None ==> c.access_token_ttl_secs == 900,
        vars.refresh_token_ttl_secs is None ==> c.refresh_token_ttl_secs == 2592000,
        vars.sentry_dsn is None ==> c.sentry_dsn is None,
        vars.sentry_dsn matches Some(v) ==> (is_blank(v@) <==> c.sentry_dsn is None),
        vars.sentry_dsn matches Some(v) ==> (!is_blank(v@) ==> (c.sentry_dsn matches Some(d)
            && d@ == v@)),
        vars.port matches Some(v) ==> (c.port == match crate::text::parse_unsigned(v@, 0xffff) {
            Some(n) => n,
            None => 8080,
        }),
        vars.access_token_ttl_secs matches Some(v) ==> (c.access_token_ttl_secs == match crate::text::parse_signed(
            v@,
            0x7fff_ffff_ffff_ffff,
        ) {
            Some(n) => n,
            None => 900,
        }),
        vars.refresh_token_ttl_secs matches Some(v) ==> (c.refresh_token_ttl_secs == match crate::text::parse_signed(
            v@,
            0x7fff_ffff_ffff_ffff,
        ) {
            Some(n) => n,
            None => 2592000,
        }),
{
    let f = vars.frontend_url->Some_0@;
    crate::text::lemma_trim_end_slashes_is_prefix(f);
    lemma_parsed_numbers_fit(vars.port);
    lemma_parsed_numbers_fit(vars.access_token_ttl_secs);
    lemma_parsed_numbers_fit(vars.refresh_token_ttl_secs);
    if f.len() > 0 && f.last() != '/' {
        assert(crate::text::trim_end_slashes(f) == f);
    }
    reveal_strlit("false");
    reveal_strlit("FALSE");
    reveal_strlit("False");
    reveal_strlit("true");
    match vars.cookie_secure {
        Some(v) => {
            if v@ == "true"@ {
                assert(!eq_ignore_ascii_case(v@, "false"@)) by {
                    assert(crate::text::ascii_lower(v@[0]) != crate::text::ascii_lower("false"@[0]));
                }
            }
        },
        None => {},
    }
}

} // verus!

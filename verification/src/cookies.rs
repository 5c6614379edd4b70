//! The session and OAuth cookies: their names, scopes and lifetimes. A cookie
//! is described here by its attributes; the HTTP layer renders it.

use vstd::prelude::*;

use crate::config::Config;

verus! {

pub const OAUTH_COOKIE: &'static str = "hytale_oauth";

pub const ACCESS_COOKIE: &'static str = "access_token";

pub const REFRESH_COOKIE: &'static str = "refresh_token";

#[derive(Debug, Clone, Copy, PartialEq, Eq, Structural)]
pub enum SameSite {
    Lax,
    Strict,
}

/// A cookie to set (or clear) in the browser.
#[derive(Debug, Clone)]
pub struct CookieSpec {
    pub name: String,
    pub value: String,
    pub http_only: bool,
    pub secure: bool,
    pub same_site: SameSite,
    pub path: String,
    /// `None` for a host-only cookie.
    pub domain: Option<String>,
    pub max_age_secs: i64,
}

/// The attributes every cookie of this service shares: `HttpOnly`, `Secure`
/// as configured, `SameSite=Lax`, and `Domain` when one is configured.
pub open spec fn base_cookie(
    config: Config,
    name: Seq<char>,
    value: Seq<char>,
    path: Seq<char>,
    c: CookieSpec,
) -> bool {
    &&& c.name@ == name
    &&& c.value@ == value
    &&& c.http_only
    &&& c.secure == config.cookie_secure
    &&& c.path@ == path
    &&& match c.domain {
        Some(d) => config.cookie_domain@.len() > 0 && d@ == config.cookie_domain@,
        None => config.cookie_domain@.len() == 0,
    }
}

fn builder(config: &Config, name: &str, value: String, path: &str, max_age_secs: i64) -> (c:
    CookieSpec)
    ensures
        base_cookie(*config, name@, value@, path@, c),
        c.same_site == SameSite::Lax,
        c.max_age_secs == max_age_secs,
{
    let domain = if config.cookie_domain.as_str().is_empty() {
        None
    } else {
        Some(config.cookie_domain.clone())
    };
    CookieSpec {
        name: name.to_owned(),
        value,
        http_only: true,
        secure: config.cookie_secure,
        same_site: SameSite::Lax,
        path: path.to_owned(),
        domain,
        max_age_secs,
    }
}

/// Holds `state`/`nonce`/`code_verifier`/`redirect_after` between the
/// `/auth/hytale/login` redirect and the `/auth/hytale/callback` round trip.
/// Scoped to `/auth/hytale` and expires after ten minutes, since it's only
/// alive for the duration of the redirect to Hytale and back.
pub fn oauth_state_cookie(config: &Config, value: String) -> (c: CookieSpec)
    ensures
        base_cookie(*config, OAUTH_COOKIE@, value@, "/auth/hytale"@, c),
        c.same_site == SameSite::Lax,
        c.max_age_secs == 600,
{
    builder(config, OAUTH_COOKIE, value, "/auth/hytale", 600)
}

/// The access token, sent on every path, for `ttl_secs` seconds.
pub fn access_cookie(config: &Config, token: String, ttl_secs: i64) -> (c: CookieSpec)
    ensures
        base_cookie(*config, ACCESS_COOKIE@, token@, "/"@, c),
        c.same_site == SameSite::Lax,
        c.max_age_secs == ttl_secs,
{
    builder(config, ACCESS_COOKIE, token, "/", ttl_secs)
}

/// The refresh token: only sent to `/auth`, and only on same-site requests.
pub fn refresh_cookie(config: &Config, token: String, ttl_secs: i64) -> (c: CookieSpec)
    ensures
        base_cookie(*config, REFRESH_COOKIE@, token@, "/auth"@, c),
        c.same_site == SameSite::Strict,
        c.max_age_secs == ttl_secs,
{
    let mut c = builder(config, REFRESH_COOKIE, token, "/auth", ttl_secs);
    c.same_site = SameSite::Strict;
    c
}

/// A cookie that removes `name` at `path`: empty value, zero lifetime.
pub fn clear(config: &Config, name: &'static str, path: &'static str) -> (c: CookieSpec)
    ensures
        base_cookie(*config, name@, Seq::empty(), path@, c),
        c.same_site == SameSite::Lax,
        c.max_age_secs == 0,
{
    builder(config, name, String::new(), path, 0)
}

} // verus!

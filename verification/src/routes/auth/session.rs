//! Refresh tokens are stored only as a hash: lower-case hex of their SHA-256.

use vstd::prelude::*;

use crate::config::Config;
use crate::cookies::{access_cookie, base_cookie, refresh_cookie, CookieSpec, SameSite, ACCESS_COOKIE, REFRESH_COOKIE};
use crate::digest::{sha256, sha256_digest};
use crate::hytale::pkce::{is_urlsafe_of_len, random_urlsafe};
use crate::encoding::{encode_hex_lower, hex_lower, is_lower_hex, lemma_hex_lower_is_lower_hex};

verus! {

/// The hash under which a refresh token is stored and looked up.
pub open spec fn spec_refresh_token_hash(token: Seq<char>) -> Seq<char> {
    hex_lower(sha256(vstd::utf8::encode_utf8(token)))
}

/// Lower-case hex of the SHA-256 of the token's UTF-8 bytes.
pub fn hash_refresh_token(token: &str) -> (h: String)
    ensures
        h@ == spec_refresh_token_hash(token@),
        h@.len() == 64,
        is_lower_hex(h@),
{
    let digest = sha256_digest(token.as_bytes());
    let h = encode_hex_lower(digest.as_slice());
    proof {
        lemma_hex_lower_is_lower_hex(digest@);
    }
    h
}

/// A fresh refresh token: 32 random bytes, URL-safe base64.
pub fn new_refresh_token() -> (t: String)
    ensures
        is_urlsafe_of_len(t@, 32),
        t@.len() == 43,
{
    random_urlsafe(32)
}

/// The cookies that hand a session to the browser.
pub struct IssuedTokens {
    pub access_cookie: CookieSpec,
    pub refresh_cookie: CookieSpec,
}

/// The access token lives as long as the configured access TTL, the refresh
/// token as long as the refresh TTL.
pub fn issued_tokens(config: &Config, access_token: String, refresh_token: String) -> (t:
    IssuedTokens)
    ensures
        base_cookie(*config, ACCESS_COOKIE@, access_token@, "/"@, t.access_cookie),
        t.access_cookie.same_site == SameSite::Lax,
        t.access_cookie.max_age_secs == config.access_token_ttl_secs,
        base_cookie(*config, REFRESH_COOKIE@, refresh_token@, "/auth"@, t.refresh_cookie),
        t.refresh_cookie.same_site == SameSite::Strict,
        t.refresh_cookie.max_age_secs == config.refresh_token_ttl_secs,
{
    IssuedTokens {
        access_cookie: access_cookie(config, access_token, config.access_token_ttl_secs),
        refresh_cookie: refresh_cookie(config, refresh_token, config.refresh_token_ttl_secs),
    }
}

} // verus!

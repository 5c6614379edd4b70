//! What Hytale's token endpoint and id_token carry.

use vstd::prelude::*;

verus! {

#[derive(Debug, Clone)]
pub struct HytaleProfile {
    pub username: String,
}

/// `iss`/`aud`/`exp` are intentionally not modeled here: the token library
/// validates those against the raw token payload directly, independent of
/// this struct.
#[derive(Debug, Clone)]
pub struct IdTokenClaims {
    pub sub: String,
    pub nonce: Option<String>,
    pub profile: Option<HytaleProfile>,
}

#[derive(Debug, Clone)]
pub struct TokenResponse {
    pub access_token: String,
    pub id_token: String,
    pub scope: Option<String>,
}

#[derive(Debug, Clone)]
pub struct TokenErrorResponse {
    pub error: String,
    pub error_description: Option<String>,
}

} // verus!

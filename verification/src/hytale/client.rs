//! Sign in with Hytale: the authorization URL, and the checks applied to what
//! the token endpoint hands back. The HTTP exchanges happen at the edge.

use vstd::prelude::*;

use super::claims::{HytaleProfile, IdTokenClaims, TokenErrorResponse, TokenResponse};
use crate::jwt::{SigningAlgorithm, TokenRequirements};
use crate::text::str_eq;

verus! {

pub struct ExchangedIdentity {
    pub sub: String,
    pub profile: Option<HytaleProfile>,
    pub scope: Option<String>,
    pub access_token: String,
}

/// `url::ParseError`, carried through unread.
#[verifier::external_type_specification]
#[verifier::external_body]
pub struct ExUrlParseError(url::ParseError);

pub open spec fn pairs_view(pairs: Seq<(String, String)>) -> Seq<(Seq<char>, Seq<char>)> {
    pairs.map_values(|p: (String, String)| (p.0@, p.1@))
}

/// The text of the URL `base` after appending `pairs` to its query string,
/// form-urlencoded; `None` when `base` does not parse as a URL.
pub uninterp spec fn url_with_query_pairs(
    base: Seq<char>,
    pairs: Seq<(Seq<char>, Seq<char>)>,
) -> Option<Seq<char>>;

/// `url::Url::parse(base)`, then `query_pairs_mut().extend_pairs(pairs)`,
/// then `to_string()`. The result depends only on `base` and `pairs`; it is
/// named, not spelled out.
#[verifier::external_body]
fn append_query_pairs(base: &str, pairs: &Vec<(String, String)>) -> (r: Result<
    String,
    url::ParseError,
>)
    ensures
        r is Ok <==> url_with_query_pairs(base@, pairs_view(pairs@)) is Some,
        r matches Ok(u) ==> url_with_query_pairs(base@, pairs_view(pairs@)) == Some(u@),
{
    let mut url = url::Url::parse(base)?;
    url.query_pairs_mut().extend_pairs(pairs.iter());
    Ok(url.to_string())
}

/// The query of an authorization request: an authorization-code request
/// with PKCE (`S256`), in this order.
pub open spec fn authorize_pairs(
    client_id: Seq<char>,
    redirect_uri: Seq<char>,
    scopes: Seq<char>,
    state: Seq<char>,
    nonce: Seq<char>,
    code_challenge: Seq<char>,
) -> Seq<(Seq<char>, Seq<char>)> {
    seq![
        ("response_type"@, "code"@),
        ("client_id"@, client_id),
        ("redirect_uri"@, redirect_uri),
        ("scope"@, scopes),
        ("state"@, state),
        ("nonce"@, nonce),
        ("code_challenge"@, code_challenge),
        ("code_challenge_method"@, "S256"@),
    ]
}

fn pair(k: &str, v: &str) -> (p: (String, String))
    ensures
        p.0@ == k@,
        p.1@ == v@,
{
    (k.to_owned(), v.to_owned())
}

/// The URL that starts a sign-in at the authorization endpoint.
pub fn authorize_url(
    authorization_endpoint: &str,
    client_id: &str,
    redirect_uri: &str,
    scopes: &str,
    state: &str,
    nonce: &str,
    code_challenge: &str,
) -> (r: Result<String, url::ParseError>)
    ensures
        ({
            let u = url_with_query_pairs(
                authorization_endpoint@,
                authorize_pairs(client_id@, redirect_uri@, scopes@, state@, nonce@, code_challenge@),
            );
            &&& r is Ok <==> u is Some
            &&& r matches Ok(s) ==> u == Some(s@)
        }),
{
    let mut pairs: Vec<(String, String)> = Vec::new();
    pairs.push(pair("response_type", "code"));
    pairs.push(pair("client_id", client_id));
    pairs.push(pair("redirect_uri", redirect_uri));
    pairs.push(pair("scope", scopes));
    pairs.push(pair("state", state));
    pairs.push(pair("nonce", nonce));
    pairs.push(pair("code_challenge", code_challenge));
    pairs.push(pair("code_challenge_method", "S256"));
    assert(pairs_view(pairs@) =~= authorize_pairs(
        client_id@,
        redirect_uri@,
        scopes@,
        state@,
        nonce@,
        code_challenge@,
    ));
    append_query_pairs(authorization_endpoint, &pairs)
}

/// The failure message for a rejected code exchange: `"<error>: <description>"`,
/// with `unknown_error` when the body could not be read.
pub open spec fn spec_token_error_message(body: Option<TokenErrorResponse>) -> Seq<char> {
    match body {
        Some(b) => b.error@ + ": "@ + match b.error_description {
            Some(d) => d@,
            None => Seq::empty(),
        },
        None => "unknown_error: "@,
    }
}

pub fn token_error_message(body: Option<TokenErrorResponse>) -> (m: String)
    ensures
        m@ == spec_token_error_message(body),
{
    match body {
        Some(b) => {
            let mut m = b.error;
            m.append(": ");
            match b.error_description {
                Some(d) => m.append(d.as_str()),
                None => {},
            }
            m
        },
        None => "unknown_error: ".to_owned(),
    }
}

/// The `kid` field of the header of the JWT `token`: `None` when the header
/// does not decode, `Some(None)` when it has no `kid`.
pub uninterp spec fn jwt_header_kid(token: Seq<char>) -> Option<Option<Seq<char>>>;

/// `jsonwebtoken::decode_header(token)`, then its `kid` field. The header is
/// the second-to-last dot-separated part, base64 and JSON decoded; the result
/// depends on the token alone and is named, not spelled out.
#[verifier::external_body]
fn decode_header_kid(token: &str) -> (r: Result<Option<String>, jsonwebtoken::errors::Error>)
    ensures
        r is Err <==> jwt_header_kid(token@) is None,
        r matches Ok(k) ==> jwt_header_kid(token@) == Some(
            match k {
                Some(s) => Some(s@),
                None => None,
            },
        ),
{
    Ok(jsonwebtoken::decode_header(token)?.kid)
}

/// Why an id_token was turned down before or after its signature check.
pub enum IdTokenError {
    /// The header does not decode.
    Header(jsonwebtoken::errors::Error),
    /// The header names no signing key.
    MissingKid,
    /// The `nonce` claim is not the one this sign-in sent.
    NonceMismatch,
}

impl IdTokenError {
    /// The message for the errors this module raises itself; the header
    /// error is described by the token library.
    pub open spec fn spec_message(&self) -> Option<Seq<char>> {
        match self {
            IdTokenError::Header(_) => None,
            IdTokenError::MissingKid => Some("id_token missing kid"@),
            IdTokenError::NonceMismatch => Some("id_token nonce mismatch"@),
        }
    }

    pub fn message(&self) -> (m: Option<String>)
        ensures
            match m {
                Some(s) => self.spec_message() == Some(s@),
                None => self.spec_message() is None,
            },
    {
        match self {
            IdTokenError::Header(_) => None,
            IdTokenError::MissingKid => Some("id_token missing kid".to_owned()),
            IdTokenError::NonceMismatch => Some("id_token nonce mismatch".to_owned()),
        }
    }
}

/// The signing key id an id_token names, needed to pick the key that checks it.
pub fn id_token_kid(id_token: &str) -> (r: Result<String, IdTokenError>)
    ensures
        match r {
            Ok(kid) => jwt_header_kid(id_token@) == Some(Some(kid@)),
            Err(IdTokenError::Header(_)) => jwt_header_kid(id_token@) is None,
            Err(IdTokenError::MissingKid) => jwt_header_kid(id_token@) == Some(
                None::<Seq<char>>,
            ),
            Err(IdTokenError::NonceMismatch) => false,
        },
{
    match decode_header_kid(id_token) {
        Ok(Some(kid)) => Ok(kid),
        Ok(None) => Err(IdTokenError::MissingKid),
        Err(e) => Err(IdTokenError::Header(e)),
    }
}

/// What an id_token must satisfy before its claims are read: an RS256
/// signature, the issuer that the discovery document names, and this
/// client as its audience.
pub fn id_token_requirements(issuer: &str, client_id: &str) -> (r: TokenRequirements)
    ensures
        r.algorithm == SigningAlgorithm::Rs256,
        r.issuer@ == issuer@,
        r.audience@ == client_id@,
{
    TokenRequirements {
        algorithm: SigningAlgorithm::Rs256,
        issuer: issuer.to_owned(),
        audience: client_id.to_owned(),
    }
}

/// The claims carry exactly the expected nonce.
pub open spec fn nonce_matches(claims: IdTokenClaims, expected: Seq<char>) -> bool {
    match claims.nonce {
        Some(n) => n@ == expected,
        None => false,
    }
}

/// Accepts validated claims only when their `nonce` is the one sent with
/// this sign-in.
pub fn check_nonce(claims: IdTokenClaims, expected_nonce: &str) -> (r: Result<
    IdTokenClaims,
    IdTokenError,
>)
    ensures
        match r {
            Ok(c) => c == claims && nonce_matches(claims, expected_nonce@),
            Err(e) => e is NonceMismatch && !nonce_matches(claims, expected_nonce@),
        },
{
    let ok = match &claims.nonce {
        Some(n) => str_eq(n.as_str(), expected_nonce),
        None => false,
    };
    if ok {
        Ok(claims)
    } else {
        Err(IdTokenError::NonceMismatch)
    }
}

/// The identity a successful exchange establishes.
pub fn exchanged_identity(claims: IdTokenClaims, token_response: TokenResponse) -> (i:
    ExchangedIdentity)
    ensures
        i.sub == claims.sub,
        i.profile == claims.profile,
        i.scope == token_response.scope,
        i.access_token == token_response.access_token,
{
    ExchangedIdentity {
        sub: claims.sub,
        profile: claims.profile,
        scope: token_response.scope,
        access_token: token_response.access_token,
    }
}

} // verus!

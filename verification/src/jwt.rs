//! Our own access tokens: ES256 keys, the key id, the published JWK, and the
//! claims of a freshly minted token. Signing and checking tokens happen at
//! the edge, where the claims are serialized.

use vstd::prelude::*;

use p256::elliptic_curve::sec1::ToEncodedPoint;
use p256::pkcs8::DecodePublicKey;

use crate::digest::{sha256, sha256_digest};
use crate::encoding::{b64url_encode, encode_b64url, lemma_b64url_len};
use crate::random::{is_v4_uuid_text, new_v4_uuid_text};
use crate::text::{chars_of, string_of};

verus! {

/// `jsonwebtoken::DecodingKey`, carried through unread.
#[verifier::external_type_specification]
#[verifier::external_body]
pub struct ExDecodingKey(jsonwebtoken::DecodingKey);

/// `jsonwebtoken::EncodingKey`, carried through unread.
#[verifier::external_type_specification]
#[verifier::external_body]
pub struct ExEncodingKey(jsonwebtoken::EncodingKey);

/// `jsonwebtoken::errors::Error`, carried through unread.
#[verifier::external_type_specification]
#[verifier::external_body]
pub struct ExJwtError(jsonwebtoken::errors::Error);

/// `p256::pkcs8::spki::Error`, carried through unread.
#[verifier::external_type_specification]
#[verifier::external_body]
pub struct ExSpkiError(p256::pkcs8::spki::Error);

/// The signing key `jsonwebtoken::EncodingKey::from_ec_pem` builds from these
/// bytes, or `None` when it does not accept them as an EC private key in PEM.
pub uninterp spec fn ec_encoding_key_of(pem: Seq<u8>) -> Option<jsonwebtoken::EncodingKey>;

/// The checking key `jsonwebtoken::DecodingKey::from_ec_pem` builds from
/// these bytes, or `None` when it does not accept them as an EC public key in
/// PEM.
pub uninterp spec fn ec_decoding_key_of(pem: Seq<u8>) -> Option<jsonwebtoken::DecodingKey>;

/// The uncompressed P-256 point of a public key in PEM: `None` when the PEM
/// does not hold a P-256 public key, else its `x` and `y` coordinates (as the
/// encoded point exposes them).
pub uninterp spec fn p256_public_point(pem: Seq<char>) -> Option<
    (Option<Seq<u8>>, Option<Seq<u8>>),
>;

/// `jsonwebtoken::EncodingKey::from_ec_pem`. Whether it succeeds, and the key
/// it builds, depend on the bytes alone: named `ec_encoding_key_of`, not
/// spelled out.
#[verifier::external_body]
fn encoding_key_from_ec_pem(pem: &[u8]) -> (r: Result<
    jsonwebtoken::EncodingKey,
    jsonwebtoken::errors::Error,
>)
    ensures
        r is Ok <==> ec_encoding_key_of(pem@) is Some,
        r matches Ok(k) ==> ec_encoding_key_of(pem@) == Some(k),
{
    jsonwebtoken::EncodingKey::from_ec_pem(pem)
}

/// `jsonwebtoken::DecodingKey::from_ec_pem`. Whether it succeeds, and the key
/// it builds, depend on the bytes alone: named `ec_decoding_key_of`, not
/// spelled out.
#[verifier::external_body]
fn decoding_key_from_ec_pem(pem: &[u8]) -> (r: Result<
    jsonwebtoken::DecodingKey,
    jsonwebtoken::errors::Error,
>)
    ensures
        r is Ok <==> ec_decoding_key_of(pem@) is Some,
        r matches Ok(k) ==> ec_decoding_key_of(pem@) == Some(k),
{
    jsonwebtoken::DecodingKey::from_ec_pem(pem)
}

/// `p256::PublicKey::from_public_key_pem`, then `to_encoded_point(false)`
/// and its `x()` and `y()` coordinates, copied out. A P-256 coordinate is a
/// 32-byte field element (`FieldBytes`).
#[verifier::external_body]
fn public_point_from_pem(pem: &str) -> (r: Result<
    (Option<Vec<u8>>, Option<Vec<u8>>),
    p256::pkcs8::spki::Error,
>)
    ensures
        r is Err <==> p256_public_point(pem@) is None,
        r matches Ok(xy) ==> (xy.0 matches Some(x) ==> x@.len() == 32),
        r matches Ok(xy) ==> (xy.1 matches Some(y) ==> y@.len() == 32),
        r matches Ok(xy) ==> p256_public_point(pem@) == Some(
            (
                match xy.0 {
                    Some(x) => Some(x@),
                    None => None,
                },
                match xy.1 {
                    Some(y) => Some(y@),
                    None => None,
                },
            ),
        ),
{
    let key = p256::PublicKey::from_public_key_pem(pem)?;
    let point = key.to_encoded_point(false);
    Ok((point.x().map(|x| x.to_vec()), point.y().map(|y| y.to_vec())))
}

/// The public half of our signing key, as published in the JWKS document.
#[derive(Debug, Clone)]
pub struct EcJwk {
    pub kty: String,
    pub crv: String,
    pub alg: String,
    pub use_: String,
    pub kid: String,
    pub x: String,
    pub y: String,
}

/// The signature algorithms the service deals in: Hytale signs id_tokens
/// with RS256, and our access tokens are signed with ES256.
#[derive(Debug, Clone, Copy, PartialEq, Eq, Structural)]
pub enum SigningAlgorithm {
    Rs256,
    Es256,
}

/// The name a JOSE header or a JWK gives the algorithm.
pub open spec fn algorithm_name(a: SigningAlgorithm) -> Seq<char> {
    match a {
        SigningAlgorithm::Rs256 => "RS256"@,
        SigningAlgorithm::Es256 => "ES256"@,
    }
}

/// What a token must satisfy to be accepted, besides an `exp` that has not
/// passed: a signature made with `algorithm`, and the `issuer` and
/// `audience` claims given here.
#[derive(Debug, Clone)]
pub struct TokenRequirements {
    pub algorithm: SigningAlgorithm,
    pub issuer: String,
    pub audience: String,
}

/// The JOSE header an access token is signed under.
#[derive(Debug, Clone)]
pub struct AccessTokenHeader {
    pub algorithm: SigningAlgorithm,
    pub kid: String,
}

/// The claims of one of our access tokens.
#[derive(Debug, Clone)]
pub struct AccessClaims {
    pub sub: String,
    pub iss: String,
    pub aud: String,
    pub iat: i64,
    pub exp: i64,
    pub jti: String,
}

/// Why the signing keys could not be loaded.
pub enum KeyLoadError {
    /// A PEM key was refused by the token library.
    Jwt(jsonwebtoken::errors::Error),
    /// The public key PEM does not hold a P-256 public key.
    PublicKey(p256::pkcs8::spki::Error),
    MissingX,
    MissingY,
}

impl KeyLoadError {
    /// The message for the errors raised here; the others are described by
    /// the library that raised them.
    pub fn message(&self) -> (m: Option<String>)
        ensures
            match m {
                Some(s) => (self is MissingX && s@ == "missing x coordinate"@) || (self is MissingY
                    && s@ == "missing y coordinate"@),
                None => self is Jwt || self is PublicKey,
            },
    {
        match self {
            KeyLoadError::MissingX => Some("missing x coordinate".to_owned()),
            KeyLoadError::MissingY => Some("missing y coordinate".to_owned()),
            _ => None,
        }
    }
}

pub struct JwtKeys {
    encoding: jsonwebtoken::EncodingKey,
    decoding: jsonwebtoken::DecodingKey,
    issuer: String,
    audience: String,
    ttl_secs: i64,
    kid: String,
    jwk: EcJwk,
}

/// The key id: the first 16 characters of the URL-safe base64 of the SHA-256
/// of the public key PEM.
pub open spec fn spec_kid(public_pem: Seq<char>) -> Seq<char> {
    b64url_encode(sha256(vstd::utf8::encode_utf8(public_pem))).take(16)
}

/// The JWK published for a public key with coordinates `x` and `y`.
pub open spec fn jwk_for(kid: Seq<char>, x: Seq<u8>, y: Seq<u8>, jwk: EcJwk) -> bool {
    &&& jwk.kty@ == "EC"@
    &&& jwk.crv@ == "P-256"@
    &&& jwk.alg@ == "ES256"@
    &&& jwk.use_@ == "sig"@
    &&& jwk.kid@ == kid
    &&& jwk.x@ == b64url_encode(x)
    &&& jwk.y@ == b64url_encode(y)
}

fn key_id(public_pem: &str) -> (kid: String)
    ensures
        kid@ == spec_kid(public_pem@),
        kid@.len() == 16,
{
    let digest = sha256_digest(public_pem.as_bytes());
    let encoded = encode_b64url(digest.as_slice());
    proof {
        lemma_b64url_len(digest@);
    }
    let cs = chars_of(encoded.as_str());
    let mut first: Vec<char> = Vec::new();
    let mut i: usize = 0;
    while i < 16
        invariant
            cs@ == encoded@,
            cs@.len() == 43,
            i <= 16,
            first@ == cs@.take(i as int),
        decreases 16 - i,
    {
        first.push(cs[i]);
        i = i + 1;
        assert(first@ =~= cs@.take(i as int));
    }
    string_of(first.as_slice())
}

fn public_key_jwk(public_pem: &str, kid: &String) -> (r: Result<EcJwk, KeyLoadError>)
    ensures
        match r {
            Ok(jwk) => p256_public_point(public_pem@) matches Some((Some(x), Some(y))) && jwk_for(
                kid@,
                x,
                y,
                jwk,
            ),
            Err(KeyLoadError::PublicKey(_)) => p256_public_point(public_pem@) is None,
            Err(KeyLoadError::MissingX) => p256_public_point(public_pem@) matches Some((None, _)),
            Err(KeyLoadError::MissingY) => p256_public_point(public_pem@) matches Some(
                (Some(_), None),
            ),
            Err(KeyLoadError::Jwt(_)) => false,
        },
{
    match public_point_from_pem(public_pem) {
        Err(e) => Err(KeyLoadError::PublicKey(e)),
        Ok((None, _)) => Err(KeyLoadError::MissingX),
        Ok((Some(_), None)) => Err(KeyLoadError::MissingY),
        Ok((Some(x), Some(y))) => {
            Ok(
                EcJwk {
                    kty: "EC".to_owned(),
                    crv: "P-256".to_owned(),
                    alg: "ES256".to_owned(),
                    use_: "sig".to_owned(),
                    kid: kid.clone(),
                    x: encode_b64url(x.as_slice()),
                    y: encode_b64url(y.as_slice()),
                },
            )
        },
    }
}

/// What loading the keys from these PEMs gives: which error, in the order
/// the loader checks, or success.
pub open spec fn load_outcome(private_pem: Seq<char>, public_pem: Seq<char>) -> Option<
    KeyLoadFailure,
> {
    if ec_encoding_key_of(vstd::utf8::encode_utf8(private_pem)) is None {
        Some(KeyLoadFailure::Private)
    } else if ec_decoding_key_of(vstd::utf8::encode_utf8(public_pem)) is None {
        Some(KeyLoadFailure::Public)
    } else {
        match p256_public_point(public_pem) {
            None => Some(KeyLoadFailure::PublicPoint),
            Some((None, _)) => Some(KeyLoadFailure::X),
            Some((Some(_), None)) => Some(KeyLoadFailure::Y),
            Some((Some(_), Some(_))) => None,
        }
    }
}

/// Which step of key loading failed.
pub ghost enum KeyLoadFailure {
    Private,
    Public,
    PublicPoint,
    X,
    Y,
}

impl JwtKeys {
    /// The JWK published for verification names the key id that signed
    /// tokens carry.
    #[verifier::type_invariant]
    spec fn published_kid_matches(self) -> bool {
        &&& self.jwk.kid@ == self.kid@
        &&& self.jwk.alg@ == "ES256"@
        &&& self.kid@.len() == 16
    }

    pub closed spec fn spec_issuer(&self) -> Seq<char> {
        self.issuer@
    }

    pub closed spec fn spec_audience(&self) -> Seq<char> {
        self.audience@
    }

    pub closed spec fn spec_ttl_secs(&self) -> i64 {
        self.ttl_secs
    }

    pub closed spec fn spec_kid(&self) -> Seq<char> {
        self.kid@
    }

    pub closed spec fn spec_jwk(&self) -> EcJwk {
        self.jwk
    }

    /// Loads the ES256 key pair, derives the key id, and builds the JWK to
    /// publish.
    pub fn load(
        private_pem: &str,
        public_pem: &str,
        issuer: &str,
        audience: &str,
        ttl_secs: i64,
    ) -> (r: Result<JwtKeys, KeyLoadError>)
        ensures
            match r {
                Ok(keys) => {
                    &&& load_outcome(private_pem@, public_pem@) is None
                    &&& keys.spec_issuer() == issuer@
                    &&& keys.spec_audience() == audience@
                    &&& keys.spec_ttl_secs() == ttl_secs
                    &&& Some(keys.spec_encoding_key()) == ec_encoding_key_of(
                        vstd::utf8::encode_utf8(private_pem@),
                    )
                    &&& Some(keys.spec_decoding_key()) == ec_decoding_key_of(
                        vstd::utf8::encode_utf8(public_pem@),
                    )
                    &&& keys.spec_kid() == spec_kid(public_pem@)
                    &&& p256_public_point(public_pem@) matches Some((Some(x), Some(y))) && jwk_for(
                        spec_kid(public_pem@),
                        x,
                        y,
                        keys.spec_jwk(),
                    )
                },
                Err(KeyLoadError::Jwt(_)) => load_outcome(private_pem@, public_pem@) matches Some(
                    f,
                ) && (f is Private || f is Public),
                Err(KeyLoadError::PublicKey(_)) => load_outcome(private_pem@, public_pem@)
                    == Some(KeyLoadFailure::PublicPoint),
                Err(KeyLoadError::MissingX) => load_outcome(private_pem@, public_pem@) == Some(
                    KeyLoadFailure::X,
                ),
                Err(KeyLoadError::MissingY) => load_outcome(private_pem@, public_pem@) == Some(
                    KeyLoadFailure::Y,
                ),
            },
    {
        let encoding = match encoding_key_from_ec_pem(private_pem.as_bytes()) {
            Ok(k) => k,
            Err(e) => return Err(KeyLoadError::Jwt(e)),
        };
        let decoding = match decoding_key_from_ec_pem(public_pem.as_bytes()) {
            Ok(k) => k,
            Err(e) => return Err(KeyLoadError::Jwt(e)),
        };
        let kid = key_id(public_pem);
        let jwk = public_key_jwk(public_pem, &kid)?;
        Ok(
            JwtKeys {
                encoding,
                decoding,
                issuer: issuer.to_owned(),
                audience: audience.to_owned(),
                ttl_secs,
                kid,
                jwk,
            },
        )
    }

    /// The claims of an access token for `user_id` issued at `now_secs`: it
    /// expires `ttl_secs` later and carries a fresh random id.
    pub fn access_claims(&self, user_id: &str, now_secs: i64) -> (c: AccessClaims)
        requires
            i64::MIN <= now_secs + self.spec_ttl_secs() <= i64::MAX,
        ensures
            c.sub@ == user_id@,
            c.iss@ == self.spec_issuer(),
            c.aud@ == self.spec_audience(),
            c.iat == now_secs,
            c.exp == now_secs + self.spec_ttl_secs(),
            is_v4_uuid_text(c.jti@),
    {
        AccessClaims {
            sub: user_id.to_owned(),
            iss: self.issuer.clone(),
            aud: self.audience.clone(),
            iat: now_secs,
            exp: now_secs + self.ttl_secs,
            jti: new_v4_uuid_text(),
        }
    }

    /// What our access tokens must satisfy: ES256, and these keys' issuer
    /// and audience.
    pub open spec fn is_access_requirements(&self, r: TokenRequirements) -> bool {
        &&& r.algorithm == SigningAlgorithm::Es256
        &&& r.issuer@ == self.spec_issuer()
        &&& r.audience@ == self.spec_audience()
    }

    /// The header of an access token minted with these keys: ES256, under
    /// these keys' id.
    pub open spec fn is_access_header(&self, h: AccessTokenHeader) -> bool {
        &&& h.algorithm == SigningAlgorithm::Es256
        &&& h.kid@ == self.spec_kid()
    }

    /// The checks an access token presented to us must pass.
    pub fn access_token_requirements(&self) -> (r: TokenRequirements)
        ensures
            self.is_access_requirements(r),
    {
        TokenRequirements {
            algorithm: SigningAlgorithm::Es256,
            issuer: self.issuer.clone(),
            audience: self.audience.clone(),
        }
    }

    /// The header a new access token is signed under; the JWKS document
    /// publishes this key id with this algorithm.
    pub fn access_token_header(&self) -> (h: AccessTokenHeader)
        ensures
            self.is_access_header(h),
            self.spec_jwk().kid@ == h.kid@,
            self.spec_jwk().alg@ == algorithm_name(h.algorithm),
    {
        proof {
            use_type_invariant(self);
        }
        AccessTokenHeader { algorithm: SigningAlgorithm::Es256, kid: self.kid.clone() }
    }

    pub closed spec fn spec_encoding_key(&self) -> jsonwebtoken::EncodingKey {
        self.encoding
    }

    pub closed spec fn spec_decoding_key(&self) -> jsonwebtoken::DecodingKey {
        self.decoding
    }

    /// The private key that signs access tokens.
    pub fn encoding_key(&self) -> (k: &jsonwebtoken::EncodingKey)
        ensures
            *k == self.spec_encoding_key(),
    {
        &self.encoding
    }

    /// The public key that checks access tokens.
    pub fn decoding_key(&self) -> (k: &jsonwebtoken::DecodingKey)
        ensures
            *k == self.spec_decoding_key(),
    {
        &self.decoding
    }

    pub fn issuer(&self) -> (s: &str)
        ensures
            s@ == self.spec_issuer(),
    {
        self.issuer.as_str()
    }

    pub fn audience(&self) -> (s: &str)
        ensures
            s@ == self.spec_audience(),
    {
        self.audience.as_str()
    }

    pub fn ttl_secs(&self) -> (t: i64)
        ensures
            t == self.spec_ttl_secs(),
    {
        self.ttl_secs
    }

    pub fn kid(&self) -> (s: &str)
        ensures
            s@ == self.spec_kid(),
            s@.len() == 16,
    {
        proof {
            use_type_invariant(self);
        }
        self.kid.as_str()
    }

    /// The JWK that the JWKS document lists; its `kid` is the key id that
    /// every token minted with these keys carries in its header.
    pub fn jwk(&self) -> (j: &EcJwk)
        ensures
            *j == self.spec_jwk(),
            j.kid@ == self.spec_kid(),
            j.alg@ == "ES256"@,
    {
        proof {
            use_type_invariant(self);
        }
        &self.jwk
    }
}

/// A token minted with these keys passes these keys' own checks: it is
/// signed with the algorithm they demand, under the key id that the JWKS
/// document publishes for that algorithm, and its claims carry the issuer
/// and audience they demand.
pub proof fn lemma_minted_token_meets_requirements(
    keys: JwtKeys,
    header: AccessTokenHeader,
    claims: AccessClaims,
    requirements: TokenRequirements,
)
    requires
        keys.is_access_header(header),
        keys.spec_jwk().kid@ == keys.spec_kid(),
        keys.spec_jwk().alg@ == "ES256"@,
        claims.iss@ == keys.spec_issuer(),
        claims.aud@ == keys.spec_audience(),
        keys.is_access_requirements(requirements),
    ensures
        header.algorithm == requirements.algorithm,
        header.kid@ == keys.spec_jwk().kid@,
        keys.spec_jwk().alg@ == algorithm_name(header.algorithm),
        claims.iss@ == requirements.issuer@,
        claims.aud@ == requirements.audience@,
{
}

} // verus!

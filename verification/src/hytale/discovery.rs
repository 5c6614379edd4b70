//! The OpenID discovery document and Hytale's signing keys (JWKS). Fetching
//! and caching happen at the edge; this module decides what to fetch and
//! which published keys to trust.

use vstd::prelude::*;

use crate::encoding::is_b64url;
use crate::text::{str_eq, trim_end_slashes, trim_end_slashes_str};

verus! {

#[derive(Debug, Clone)]
pub struct DiscoveryDocument {
    pub issuer: String,
    pub authorization_endpoint: String,
    pub token_endpoint: String,
    pub userinfo_endpoint: String,
    pub jwks_uri: String,
}

/// One entry of a published JWK set.
#[derive(Debug, Clone)]
pub struct Jwk {
    pub kid: String,
    pub kty: String,
    pub n: Option<String>,
    pub e: Option<String>,
}

/// A trusted RSA signing key, with the JWK fields it was built from.
pub struct SigningKey {
    pub kid: String,
    pub n: String,
    pub e: String,
    pub key: jsonwebtoken::DecodingKey,
}

/// How long a fetched discovery document and key set stay fresh: one hour.
pub const REFRESH_INTERVAL_SECS: u64 = 3600;

/// Where the discovery document of `issuer` lives.
pub open spec fn spec_discovery_url(issuer: Seq<char>) -> Seq<char> {
    trim_end_slashes(issuer) + "/.well-known/openid-configuration"@
}

pub fn discovery_url(issuer: &str) -> (u: String)
    ensures
        u@ == spec_discovery_url(issuer@),
{
    let mut u = trim_end_slashes_str(issuer);
    u.append("/.well-known/openid-configuration");
    u
}

/// Whether the cache must be fetched again: when there is nothing cached,
/// when a refresh is forced, or when the cached copy is an hour old.
pub fn should_refetch(has_cached: bool, force: bool, age_secs: u64) -> (b: bool)
    ensures
        b == (!has_cached || force || age_secs >= REFRESH_INTERVAL_SECS),
{
    !has_cached || force || age_secs >= REFRESH_INTERVAL_SECS
}

/// The RSA verification key `jsonwebtoken::DecodingKey::from_rsa_components`
/// builds from a modulus and an exponent (their texts, in that order).
pub uninterp spec fn rsa_key_of(n: Seq<char>, e: Seq<char>) -> jsonwebtoken::DecodingKey;

/// `jsonwebtoken::DecodingKey::from_rsa_components`: it URL-safe-base64
/// decodes the modulus and exponent (no padding, canonical) and fails exactly
/// when one of them does not decode; the key it builds is a function of the
/// two texts, named `rsa_key_of`.
#[verifier::external_body]
fn rsa_decoding_key(n: &str, e: &str) -> (r: Result<
    jsonwebtoken::DecodingKey,
    jsonwebtoken::errors::Error,
>)
    ensures
        r is Ok <==> (is_b64url(n@) && is_b64url(e@)),
        r matches Ok(k) ==> k == rsa_key_of(n@, e@),
{
    jsonwebtoken::DecodingKey::from_rsa_components(n, e)
}

/// A JWK is usable when it is an RSA key whose modulus and exponent are
/// both present and decode.
pub open spec fn is_usable_rsa_jwk(k: Jwk) -> bool {
    &&& k.kty@ == "RSA"@
    &&& k.n matches Some(n) && is_b64url(n@)
    &&& k.e matches Some(e) && is_b64url(e@)
}

/// The `(kid, n, e)` of each usable key, in the order published.
pub open spec fn usable_keys(jwks: Seq<Jwk>) -> Seq<(Seq<char>, Seq<char>, Seq<char>)>
    decreases jwks.len(),
{
    if jwks.len() == 0 {
        Seq::empty()
    } else {
        let k = jwks.last();
        let rest = usable_keys(jwks.drop_last());
        if is_usable_rsa_jwk(k) {
            rest.push((k.kid@, k.n->Some_0@, k.e->Some_0@))
        } else {
            rest
        }
    }
}

pub open spec fn key_fields(keys: Seq<SigningKey>) -> Seq<(Seq<char>, Seq<char>, Seq<char>)> {
    keys.map_values(|k: SigningKey| (k.kid@, k.n@, k.e@))
}

/// Keeps the usable RSA keys of a published set, in order; others are
/// skipped. Each kept key is the one built from its own modulus and exponent.
pub fn select_rsa_keys(jwks: Vec<Jwk>) -> (keys: Vec<SigningKey>)
    ensures
        key_fields(keys@) == usable_keys(jwks@),
        forall|i: int|
            0 <= i < keys@.len() ==> (#[trigger] keys@[i]).key == rsa_key_of(
                keys@[i].n@,
                keys@[i].e@,
            ),
{
    let mut keys: Vec<SigningKey> = Vec::new();
    let mut i: usize = 0;
    let n = jwks.len();
    let rsa = "RSA";
    proof {
        reveal_strlit("RSA");
    }
    while i < n
        invariant
            n == jwks@.len(),
            i <= n,
            key_fields(keys@) == usable_keys(jwks@.take(i as int)),
            forall|j: int|
                0 <= j < keys@.len() ==> (#[trigger] keys@[j]).key == rsa_key_of(
                    keys@[j].n@,
                    keys@[j].e@,
                ),
            rsa@ == "RSA"@,
        decreases n - i,
    {
        let jwk = &jwks[i];
        assert(jwks@.take(i + 1).drop_last() =~= jwks@.take(i as int));
        assert(jwks@.take(i + 1).last() == jwks@[i as int]);
        if str_eq(jwk.kty.as_str(), rsa) {
            match (&jwk.n, &jwk.e) {
                (Some(modulus), Some(exponent)) => {
                    match rsa_decoding_key(modulus.as_str(), exponent.as_str()) {
                        Ok(key) => {
                            let ghost before = keys@;
                            keys.push(
                                SigningKey {
                                    kid: jwk.kid.clone(),
                                    n: modulus.clone(),
                                    e: exponent.clone(),
                                    key,
                                },
                            );
                            assert(key_fields(keys@) =~= key_fields(before).push(
                                (jwk.kid@, modulus@, exponent@),
                            ));
                        },
                        Err(_) => {},
                    }
                },
                _ => {},
            }
        }
        i = i + 1;
    }
    assert(jwks@.take(n as int) =~= jwks@);
    keys
}

/// Some kept key is published under `kid`.
pub open spec fn has_key_for(keys: Seq<SigningKey>, kid: Seq<char>) -> bool {
    exists|i: int| 0 <= i < keys.len() && (#[trigger] keys[i]).kid@ == kid
}

/// `k` is the key of the last entry published under `kid`.
pub open spec fn is_key_for(keys: Seq<SigningKey>, kid: Seq<char>, k: jsonwebtoken::DecodingKey) -> bool {
    exists|i: int|
        0 <= i < keys.len() && (#[trigger] keys[i]).kid@ == kid && k == keys[i].key && forall|j: int|
            i < j < keys.len() ==> (#[trigger] keys[j]).kid@ != kid
}

/// The next move of a signing-key lookup.
pub enum KeyLookup<'a> {
    /// The key that checks the token.
    Found(&'a jsonwebtoken::DecodingKey),
    /// Not known yet: fetch the key set again (Hytale may have rotated its
    /// keys since the last fetch), then look once more.
    Refresh,
    /// Still not known after a fresh fetch: the token is refused with this
    /// message.
    Unknown(String),
}

/// One step of looking up the key for `kid` in the cached keys, where
/// `refreshed` says whether the cache was just fetched again because of an
/// earlier miss: a miss asks for one refresh, a second miss gives up.
pub fn key_lookup_step<'a>(keys: &'a Vec<SigningKey>, kid: &str, refreshed: bool) -> (r: KeyLookup<'a>)
    ensures
        r is Found <==> has_key_for(keys@, kid@),
        r matches KeyLookup::Found(k) ==> is_key_for(keys@, kid@, *k),
        r is Refresh <==> !has_key_for(keys@, kid@) && !refreshed,
        r matches KeyLookup::Unknown(m) ==> !has_key_for(keys@, kid@) && refreshed && m@
            == "unknown signing key: "@ + kid@,
{
    match find_signing_key(keys, kid) {
        Some(k) => KeyLookup::Found(k),
        None => if refreshed {
            let mut m = "unknown signing key: ".to_owned();
            m.append(kid);
            KeyLookup::Unknown(m)
        } else {
            KeyLookup::Refresh
        },
    }
}

/// The key published under `kid`; when several share it, the last one
/// published wins.
pub fn find_signing_key<'a>(keys: &'a Vec<SigningKey>, kid: &str) -> (r: Option<
    &'a jsonwebtoken::DecodingKey,
>)
    ensures
        r is Some <==> has_key_for(keys@, kid@),
        r matches Some(k) ==> is_key_for(keys@, kid@, *k),
{
    let mut i: usize = keys.len();
    while i > 0
        invariant
            i <= keys@.len(),
            forall|j: int| i <= j < keys@.len() ==> (#[trigger] keys@[j]).kid@ != kid@,
        decreases i,
    {
        i = i - 1;
        if str_eq(keys[i].kid.as_str(), kid) {
            return Some(&keys[i].key);
        }
    }
    None
}

/// The `(kid, n, e)` that a usable JWK is kept as.
pub open spec fn jwk_fields(k: Jwk) -> (Seq<char>, Seq<char>, Seq<char>) {
    (k.kid@, k.n->Some_0@, k.e->Some_0@)
}

/// Selection looks at each key on its own: the keys kept from two sets
/// published one after the other are those kept from the first, then those
/// kept from the second, wherever a key stands.
pub proof fn lemma_usable_keys_append(a: Seq<Jwk>, b: Seq<Jwk>)
    ensures
        usable_keys(a + b) == usable_keys(a) + usable_keys(b),
    decreases b.len(),
{
    if b.len() == 0 {
        assert(a + b =~= a);
        assert(usable_keys(a) + usable_keys(b) =~= usable_keys(a));
    } else {
        assert((a + b).drop_last() =~= a + b.drop_last());
        assert((a + b).last() == b.last());
        lemma_usable_keys_append(a, b.drop_last());
        if is_usable_rsa_jwk(b.last()) {
            assert(usable_keys(a) + usable_keys(b.drop_last()).push(jwk_fields(b.last())) =~= (
            usable_keys(a) + usable_keys(b.drop_last())).push(jwk_fields(b.last())));
        }
    }
}

/// A single JWK is kept exactly when it is usable: an RSA key whose modulus
/// and exponent are both present and decode.
pub proof fn lemma_single_key_kept_iff_usable(k: Jwk)
    ensures
        is_usable_rsa_jwk(k) ==> usable_keys(seq![k]) == seq![jwk_fields(k)],
        !is_usable_rsa_jwk(k) ==> usable_keys(seq![k]) == Seq::<(Seq<char>, Seq<char>, Seq<char>)>::empty(),
{
    assert(seq![k].drop_last() =~= Seq::<Jwk>::empty());
    assert(seq![k].last() == k);
    assert(usable_keys(Seq::<Jwk>::empty()) =~= Seq::<(Seq<char>, Seq<char>, Seq<char>)>::empty());
    assert(usable_keys(seq![k]) == if is_usable_rsa_jwk(k) {
        usable_keys(seq![k].drop_last()).push(jwk_fields(k))
    } else {
        usable_keys(seq![k].drop_last())
    });
    assert(Seq::<(Seq<char>, Seq<char>, Seq<char>)>::empty().push(jwk_fields(k)) =~= seq![jwk_fields(k)]);
}

/// Every usable JWK of a published set is kept, whatever its position, and
/// every kept entry is one of the set's usable JWKs.
pub proof fn lemma_kept_keys_are_the_usable_ones(jwks: Seq<Jwk>, i: int, j: int)
    ensures
        0 <= i < jwks.len() && is_usable_rsa_jwk(jwks[i]) ==> usable_keys(jwks).contains(
            jwk_fields(jwks[i]),
        ),
        0 <= j < usable_keys(jwks).len() ==> exists|m: int|
            0 <= m < jwks.len() && is_usable_rsa_jwk(#[trigger] jwks[m]) && jwk_fields(jwks[m])
                == usable_keys(jwks)[j],
    decreases jwks.len(),
{
    if jwks.len() > 0 {
        let init = jwks.drop_last();
        let last = jwks.last();
        lemma_kept_keys_are_the_usable_ones(init, i, j);
        let ui = usable_keys(init);
        if 0 <= i < jwks.len() && is_usable_rsa_jwk(jwks[i]) {
            if i < init.len() {
                assert(init[i] == jwks[i]);
                let w = choose|w: int| 0 <= w < ui.len() && ui[w] == jwk_fields(init[i]);
                if is_usable_rsa_jwk(last) {
                    assert(ui.push(jwk_fields(last))[w] == ui[w]);
                }
                assert(usable_keys(jwks).contains(jwk_fields(jwks[i])));
            } else {
                assert(usable_keys(jwks) == ui.push(jwk_fields(last)));
                assert(usable_keys(jwks)[ui.len() as int] == jwk_fields(jwks[i]));
            }
        }
        if 0 <= j < usable_keys(jwks).len() {
            if j < ui.len() {
                let m = choose|m: int|
                    0 <= m < init.len() && is_usable_rsa_jwk(#[trigger] init[m]) && jwk_fields(
                        init[m],
                    ) == ui[j];
                assert(jwks[m] == init[m]);
                if is_usable_rsa_jwk(last) {
                    assert(ui.push(jwk_fields(last))[j] == ui[j]);
                }
            } else {
                let m = jwks.len() - 1;
                assert(jwks[m] == last);
            }
        }
    }
}

} // verus!

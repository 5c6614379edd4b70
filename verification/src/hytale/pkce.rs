//! PKCE (RFC 7636) with the `S256` method, and URL-safe random strings.

use vstd::prelude::*;

use crate::encoding::{b64url_encode, b64url_len, encode_b64url, lemma_b64url_len};
use crate::random::random_bytes;
use crate::digest::{sha256, sha256_digest};

verus! {

/// `s` is the URL-safe unpadded base64 of some `n` bytes.
pub open spec fn is_urlsafe_of_len(s: Seq<char>, n: nat) -> bool {
    exists|b: Seq<u8>| b.len() == n && #[trigger] b64url_encode(b) == s
}

/// A random URL-safe string carrying `n` random bytes: the URL-safe unpadded
/// base64 of those bytes.
pub fn random_urlsafe(n: usize) -> (s: String)
    requires
        b64url_len(n as nat) <= usize::MAX,
    ensures
        is_urlsafe_of_len(s@, n as nat),
        s@.len() == b64url_len(n as nat),
{
    let bytes = random_bytes(n);
    let s = encode_b64url(bytes.as_slice());
    proof {
        lemma_b64url_len(bytes@);
    }
    s
}

/// The `S256` code challenge of a verifier: URL-safe unpadded base64 of the
/// SHA-256 of the verifier's bytes.
pub open spec fn s256_challenge(verifier: Seq<char>) -> Seq<char> {
    b64url_encode(sha256(vstd::utf8::encode_utf8(verifier)))
}

pub struct Pkce {
    pub verifier: String,
    pub challenge: String,
}

impl Pkce {
    /// A fresh verifier (32 random bytes, 43 characters) and its `S256`
    /// challenge.
    pub fn generate() -> (p: Pkce)
        ensures
            is_urlsafe_of_len(p.verifier@, 32),
            p.verifier@.len() == 43,
            p.challenge@ == s256_challenge(p.verifier@),
    {
        let verifier = random_urlsafe(32);
        let digest = sha256_digest(verifier.as_str().as_bytes());
        let challenge = encode_b64url(digest.as_slice());
        Pkce { verifier, challenge }
    }
}

} // verus!

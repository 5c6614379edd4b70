//! What the login redirect remembers until the callback: the state, nonce,
//! PKCE verifier and post-login path, carried in a short-lived cookie.

use vstd::prelude::*;

use crate::encoding::{all_b64url_alphabet, b64url_encode, decode_b64url, encode_b64url, is_b64url};
use crate::error::ApiError;
use crate::text::{chars_of, contains_chars, occurs_at, seq_contains, seq_starts_with, starts_with_chars};

verus! {

#[derive(Debug, Clone)]
pub struct OauthState {
    pub state: String,
    pub nonce: String,
    pub verifier: String,
    pub redirect_path: String,
}

/// A path is safe to send the browser to after login when it is relative
/// to this origin: one leading slash, not two, and no scheme separator.
pub open spec fn is_safe_redirect_path(p: Seq<char>) -> bool {
    &&& seq_starts_with(p, seq!['/'])
    &&& !seq_starts_with(p, seq!['/', '/'])
    &&& !seq_contains(p, seq![':', '/', '/'])
}

/// The path the browser lands on after login, for the `redirect` query value.
pub open spec fn spec_sanitize_redirect_path(raw: Option<Seq<char>>) -> Seq<char> {
    match raw {
        Some(p) => if is_safe_redirect_path(p) {
            p
        } else {
            "/"@
        },
        None => "/"@,
    }
}

/// Only relative, single-leading-slash paths are allowed — otherwise a
/// crafted `redirect` query param could bounce the browser (with our
/// session cookies already set) off to an attacker-controlled origin.
pub fn sanitize_redirect_path(raw: Option<&str>) -> (r: String)
    ensures
        r@ == spec_sanitize_redirect_path(
            match raw {
                Some(p) => Some(p@),
                None => None,
            },
        ),
{
    match raw {
        Some(path) => {
            let cs = chars_of(path);
            let slash = ['/'];
            let two_slashes = ['/', '/'];
            let scheme_sep = [':', '/', '/'];
            assert(slash@ =~= seq!['/']);
            assert(two_slashes@ =~= seq!['/', '/']);
            assert(scheme_sep@ =~= seq![':', '/', '/']);
            if starts_with_chars(cs.as_slice(), slash.as_slice()) && !starts_with_chars(
                cs.as_slice(),
                two_slashes.as_slice(),
            ) && !contains_chars(cs.as_slice(), scheme_sep.as_slice()) {
                path.to_owned()
            } else {
                "/".to_owned()
            }
        },
        None => "/".to_owned(),
    }
}

/// Whatever `redirect` value comes in, the post-login path is safe.
pub proof fn lemma_sanitized_path_is_safe(raw: Option<Seq<char>>)
    ensures
        is_safe_redirect_path(spec_sanitize_redirect_path(raw)),
{
    reveal_strlit("/");
    let r = spec_sanitize_redirect_path(raw);
    if r == "/"@ {
        assert(r =~= seq!['/']);
        assert(r.subrange(0, 1) =~= seq!['/']);
        let pat = seq![':', '/', '/'];
        assert forall|i: int| !#[trigger] crate::text::occurs_at(r, pat, i) by {}
    }
}

/// A safe path comes through unchanged, so sanitizing twice changes nothing.
pub proof fn lemma_sanitize_idempotent(raw: Option<Seq<char>>)
    ensures
        spec_sanitize_redirect_path(Some(spec_sanitize_redirect_path(raw)))
            == spec_sanitize_redirect_path(raw),
{
    lemma_sanitized_path_is_safe(raw);
}

/// The callback's reading of its state cookie: the state the login step
/// saved, or, when there is no cookie or it does not decode, the request is
/// refused as missing or expired.
pub fn saved_oauth_state(decoded: Option<OauthState>) -> (r: Result<OauthState, ApiError>)
    ensures
        match decoded {
            Some(s) => r == Ok::<OauthState, ApiError>(s),
            None => r matches Err(ApiError::BadRequest(m)) && m@ == "missing or expired oauth state"@,
        },
{
    match decoded {
        Some(s) => Ok(s),
        None => Err(ApiError::BadRequest("missing or expired oauth state".to_owned())),
    }
}

/// Frames the JSON form of an `OauthState` as a cookie value (URL-safe
/// base64 without padding).
pub fn encode_state_json(json: &[u8]) -> (value: String)
    requires
        crate::encoding::b64url_len(json@.len()) <= usize::MAX,
    ensures
        value@ == b64url_encode(json@),
        all_b64url_alphabet(value@),
{
    encode_b64url(json)
}

/// Unframes a cookie value into the JSON bytes it carries; `None` when the
/// value is not URL-safe unpadded base64.
pub fn decode_state_json(value: &str) -> (json: Option<Vec<u8>>)
    ensures
        json is Some <==> is_b64url(value@),
        json matches Some(j) ==> b64url_encode(j@) == value@,
{
    decode_b64url(value)
}

/// `p` names a path on this origin: one leading `/`, not two, and no `://`
/// anywhere in it.
pub open spec fn is_relative_path(p: Seq<char>) -> bool {
    &&& p.len() >= 1
    &&& p[0] == '/'
    &&& !(p.len() >= 2 && p[1] == '/')
    &&& forall|i: int|
        0 <= i && i + 3 <= p.len() ==> !(#[trigger] p[i] == ':' && p[i + 1] == '/' && p[i + 2]
            == '/')
}

/// A relative path comes back unchanged; anything else, and no `redirect`
/// at all, becomes `/`.
pub proof fn lemma_relative_paths_are_kept(p: Seq<char>)
    ensures
        is_relative_path(p) ==> spec_sanitize_redirect_path(Some(p)) == p,
        !is_relative_path(p) ==> spec_sanitize_redirect_path(Some(p)) == "/"@,
        spec_sanitize_redirect_path(None) == "/"@,
{
    let pat = seq![':', '/', '/'];
    if is_relative_path(p) {
        assert(p.subrange(0, 1) =~= seq!['/']);
        if p.len() >= 2 {
            assert(p.subrange(0, 2) != seq!['/', '/']) by {
                assert(p.subrange(0, 2)[1] == p[1]);
            }
        }
        assert forall|i: int| !#[trigger] occurs_at(p, pat, i) by {
            if occurs_at(p, pat, i) {
                assert(p.subrange(i, i + 3)[0] == p[i]);
                assert(p.subrange(i, i + 3)[1] == p[i + 1]);
                assert(p.subrange(i, i + 3)[2] == p[i + 2]);
            }
        }
        assert(is_safe_redirect_path(p));
    } else {
        if is_safe_redirect_path(p) {
            assert(p.subrange(0, 1)[0] == p[0]);
            if p.len() >= 2 && p[1] == '/' {
                assert(p.subrange(0, 2) =~= seq!['/', '/']);
            }
            let i = choose|i: int|
                0 <= i && i + 3 <= p.len() && (#[trigger] p[i] == ':' && p[i + 1] == '/' && p[i
                    + 2] == '/');
            if 0 <= i && i + 3 <= p.len() && (p[i] == ':' && p[i + 1] == '/' && p[i + 2] == '/') {
                assert(p.subrange(i, i + 3) =~= pat);
                assert(occurs_at(p, pat, i));
            }
        }
    }
}

} // verus!

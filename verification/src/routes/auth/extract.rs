//! Which access token a request presents.

use vstd::prelude::*;

use crate::error::ApiError;
use crate::text::{chars_of, seq_starts_with, starts_with_chars, string_of};

verus! {

/// `uuid::Uuid`, carried through unread.
#[verifier::external_type_specification]
#[verifier::external_body]
pub struct ExUuid(uuid::Uuid);

/// What `uuid::Uuid::parse_str` gives for a text: the id it spells (simple,
/// hyphenated, URN or braced form), or `None` when it spells none.
pub uninterp spec fn uuid_parse(text: Seq<char>) -> Option<uuid::Uuid>;

/// `uuid::Uuid::parse_str(text).ok()`: its result is a function of the text
/// alone, named `uuid_parse`; which texts parse is not spelled out.
#[verifier::external_body]
fn parse_uuid(text: &str) -> (r: Option<uuid::Uuid>)
    ensures
        r == uuid_parse(text@),
{
    uuid::Uuid::parse_str(text).ok()
}

/// The user a verified access token speaks for: its `sub` claim read as a
/// UUID; `None` (an unauthorized request) when it is not one.
pub fn user_id_from_subject(sub: &str) -> (r: Option<uuid::Uuid>)
    ensures
        r == uuid_parse(sub@),
{
    parse_uuid(sub)
}

/// The extractor's verdict once it has looked for a token and checked it:
/// `verified_subject` is `None` when no token was presented or the token
/// failed verification, else the `sub` claim of the verified token. Every
/// refusal is `Unauthorized`, never a token error.
pub fn authenticated_user(verified_subject: Option<&str>) -> (r: Result<uuid::Uuid, ApiError>)
    ensures
        match verified_subject {
            Some(sub) => match uuid_parse(sub@) {
                Some(u) => r == Ok::<uuid::Uuid, ApiError>(u),
                None => r == Err::<uuid::Uuid, ApiError>(ApiError::Unauthorized),
            },
            None => r == Err::<uuid::Uuid, ApiError>(ApiError::Unauthorized),
        },
{
    match verified_subject {
        Some(sub) => match user_id_from_subject(sub) {
            Some(u) => Ok(u),
            None => Err(ApiError::Unauthorized),
        },
        None => Err(ApiError::Unauthorized),
    }
}

/// The token a request presents: the access cookie when there is one, else
/// an `Authorization: Bearer <token>` header.
pub open spec fn spec_presented_token(
    access_cookie: Option<Seq<char>>,
    authorization: Option<Seq<char>>,
) -> Option<Seq<char>> {
    match access_cookie {
        Some(v) => Some(v),
        None => match authorization {
            Some(h) => if seq_starts_with(h, "Bearer "@) {
                Some(h.skip(7))
            } else {
                None
            },
            None => None,
        },
    }
}

/// The access cookie's value comes first; the `Authorization` header (as
/// text, `None` when absent or not visible ASCII) is the fallback.
pub fn presented_token(access_cookie: Option<String>, authorization: Option<&str>) -> (r: Option<
    String,
>)
    ensures
        match r {
            Some(t) => spec_presented_token(
                match access_cookie {
                    Some(v) => Some(v@),
                    None => None,
                },
                match authorization {
                    Some(h) => Some(h@),
                    None => None,
                },
            ) == Some(t@),
            None => spec_presented_token(
                match access_cookie {
                    Some(v) => Some(v@),
                    None => None,
                },
                match authorization {
                    Some(h) => Some(h@),
                    None => None,
                },
            ) is None,
        },
{
    match access_cookie {
        Some(v) => Some(v),
        None => match authorization {
            Some(h) => {
                let cs = chars_of(h);
                let prefix = ['B', 'e', 'a', 'r', 'e', 'r', ' '];
                proof {
                    reveal_strlit("Bearer ");
                }
                assert(prefix@ =~= "Bearer "@);
                if starts_with_chars(cs.as_slice(), prefix.as_slice()) {
                    let mut rest: Vec<char> = Vec::new();
                    let n = cs.len();
                    let mut i: usize = 7;
                    while i < n
                        invariant
                            n == cs@.len(),
                            7 <= i <= n,
                            rest@ == cs@.subrange(7, i as int),
                        decreases n - i,
                    {
                        rest.push(cs[i]);
                        i = i + 1;
                        assert(rest@ =~= cs@.subrange(7, i as int));
                    }
                    assert(rest@ =~= cs@.skip(7));
                    Some(string_of(rest.as_slice()))
                } else {
                    None
                }
            },
            None => None,
        },
    }
}

/// The access cookie, when a request carries one, is the token it presents,
/// whatever `Authorization` header comes with it.
pub proof fn lemma_cookie_token_is_presented(cookie: Seq<char>, authorization: Option<Seq<char>>)
    ensures
        spec_presented_token(Some(cookie), authorization) == Some(cookie),
{
}

/// Without a cookie, a header `Bearer <token>` presents exactly `<token>`; a
/// header without that prefix (the scheme compared case-sensitively), or no
/// header, presents nothing.
pub proof fn lemma_bearer_header_is_the_fallback(token: Seq<char>, header: Seq<char>)
    ensures
        spec_presented_token(None, Some("Bearer "@ + token)) == Some(token),
        !(header.len() >= 7 && header.take(7) == "Bearer "@) ==> spec_presented_token(
            None,
            Some(header),
        ) is None,
        spec_presented_token(None, None) is None,
{
    reveal_strlit("Bearer ");
    let h = "Bearer "@ + token;
    assert(h.subrange(0, 7) =~= "Bearer "@);
    assert(h.skip(7) =~= token);
    if seq_starts_with(header, "Bearer "@) {
        assert(header.take(7) =~= header.subrange(0, 7));
    }
}

} // verus!

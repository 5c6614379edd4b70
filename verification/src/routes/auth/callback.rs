//! The decisions of `/auth/hytale/callback`: whether Hytale's answer belongs
//! to the sign-in we started, who signed in, and where the browser goes next.

use vstd::prelude::*;

use super::oauth_state::{
    is_safe_redirect_path, lemma_sanitized_path_is_safe, spec_sanitize_redirect_path, OauthState,
};
use crate::error::ApiError;
use crate::hytale::client::ExchangedIdentity;
use crate::text::{chars_of, str_eq, string_of, trim_ws, trim_ws_chars};

verus! {

/// The query string Hytale redirects back with.
#[derive(Debug, Clone)]
pub struct CallbackQuery {
    pub code: Option<String>,
    pub state: Option<String>,
    pub error: Option<String>,
    pub error_description: Option<String>,
}

/// The message of a sign-in that Hytale itself turned down:
/// `"<error>: <description>"`.
pub open spec fn spec_denied_message(error: Seq<char>, description: Option<String>) -> Seq<char> {
    error + ": "@ + match description {
        Some(d) => d@,
        None => Seq::empty(),
    }
}

/// Hytale's redirect belongs to the sign-in we started: no error, a code,
/// and our own state.
pub open spec fn callback_accepted(saved: OauthState, query: CallbackQuery) -> bool {
    &&& query.error is None
    &&& query.code is Some
    &&& query.state matches Some(st) && st@ == saved.state@
}

/// The verdict on Hytale's redirect: Hytale's own error first, then a
/// missing code, a missing state, and a state that is not ours; on success,
/// the authorization code to exchange.
pub open spec fn callback_verdict(
    saved: OauthState,
    query: CallbackQuery,
    r: Result<String, ApiError>,
) -> bool {
    match query.error {
        Some(e) => r matches Err(ApiError::HytaleAuth(m)) && m@ == spec_denied_message(
            e@,
            query.error_description,
        ),
        None => match query.code {
            None => r matches Err(ApiError::BadRequest(m)) && m@ == "missing code"@,
            Some(code) => match query.state {
                None => r matches Err(ApiError::BadRequest(m)) && m@ == "missing state"@,
                Some(st) => if st@ == saved.state@ {
                    r matches Ok(c) && c == code
                } else {
                    r matches Err(ApiError::BadRequest(m)) && m@ == "state mismatch"@
                },
            },
        },
    }
}

/// Checks Hytale's redirect against the saved sign-in (see
/// `callback_verdict`).
pub fn check_callback(saved: &OauthState, query: CallbackQuery) -> (r: Result<String, ApiError>)
    ensures
        callback_verdict(*saved, query, r),
        r is Ok <==> callback_accepted(*saved, query),
{
    if let Some(error) = query.error {
        let mut m = error;
        m.append(": ");
        match query.error_description {
            Some(d) => m.append(d.as_str()),
            None => {},
        }
        return Err(ApiError::HytaleAuth(m));
    }
    let code = match query.code {
        Some(c) => c,
        None => return Err(ApiError::BadRequest("missing code".to_owned())),
    };
    let returned_state = match query.state {
        Some(s) => s,
        None => return Err(ApiError::BadRequest("missing state".to_owned())),
    };
    if !str_eq(returned_state.as_str(), saved.state.as_str()) {
        return Err(ApiError::BadRequest("state mismatch".to_owned()));
    }
    Ok(code)
}

/// The name a user is stored under: their Hytale profile name when the
/// profile scope was granted, else their stable subject id.
pub fn display_username(identity: &ExchangedIdentity) -> (u: String)
    ensures
        u@ == match identity.profile {
            Some(p) => p.username@,
            None => identity.sub@,
        },
{
    match &identity.profile {
        Some(p) => p.username.clone(),
        None => identity.sub.clone(),
    }
}

/// Where the browser goes after a successful sign-in: the frontend origin
/// followed by the saved path.
pub fn post_login_redirect(frontend_url: &str, redirect_path: &str) -> (u: String)
    ensures
        u@ == frontend_url@ + redirect_path@,
{
    let mut u = frontend_url.to_owned();
    u.append(redirect_path);
    u
}

/// Whatever `redirect` value the sign-in started with, the browser comes back
/// to the frontend origin followed by a safe, relative path.
pub proof fn lemma_post_login_target_stays_on_frontend(
    frontend_url: Seq<char>,
    raw_redirect: Option<Seq<char>>,
)
    ensures
        ({
            let target = frontend_url + spec_sanitize_redirect_path(raw_redirect);
            &&& target.subrange(0, frontend_url.len() as int) == frontend_url
            &&& is_safe_redirect_path(target.skip(frontend_url.len() as int))
        }),
{
    lemma_sanitized_path_is_safe(raw_redirect);
    let target = frontend_url + spec_sanitize_redirect_path(raw_redirect);
    assert(target.subrange(0, frontend_url.len() as int) =~= frontend_url);
    assert(target.skip(frontend_url.len() as int) =~= spec_sanitize_redirect_path(raw_redirect));
}

/// `s` up to (not including) its first comma: the first item of a
/// comma-separated header value.
pub open spec fn before_comma(s: Seq<char>) -> Seq<char>
    decreases s.len(),
{
    if s.len() == 0 {
        s
    } else if s[0] == ',' {
        Seq::empty()
    } else {
        seq![s[0]] + before_comma(s.drop_first())
    }
}

fn before_comma_exec(s: &str) -> (r: Vec<char>)
    ensures
        r@ == before_comma(s@),
{
    let cs = chars_of(s);
    let n = cs.len();
    let mut out: Vec<char> = Vec::new();
    let mut i: usize = 0;
    assert(cs@.skip(0) =~= cs@);
    while i < n && cs[i] != ','
        invariant
            n == cs@.len(),
            i <= n,
            out@ == cs@.take(i as int),
            before_comma(cs@) == out@ + before_comma(cs@.skip(i as int)),
        decreases n - i,
    {
        assert(cs@.skip(i as int).drop_first() =~= cs@.skip(i + 1));
        assert(cs@.skip(i as int)[0] == cs@[i as int]);
        out.push(cs[i]);
        i = i + 1;
        assert(out@ =~= cs@.take(i as int));
        assert(before_comma(cs@) =~= out@ + before_comma(cs@.skip(i as int)));
    }
    assert(before_comma(cs@.skip(i as int)) =~= Seq::<char>::empty());
    assert(out@ + Seq::<char>::empty() =~= out@);
    out
}

/// The address text a request names for its client: `Fly-Client-IP` when it
/// was readable, else the first item of `X-Forwarded-For`, trimmed.
pub open spec fn spec_client_ip_text(fly_client_ip: Option<Seq<char>>, forwarded_for: Option<
    Seq<char>,
>) -> Option<Seq<char>> {
    match fly_client_ip {
        Some(f) => Some(trim_ws(f)),
        None => match forwarded_for {
            Some(x) => Some(trim_ws(before_comma(x))),
            None => None,
        },
    }
}

pub open spec fn opt_str_view(o: Option<&str>) -> Option<Seq<char>> {
    match o {
        Some(s) => Some(s@),
        None => None,
    }
}

/// `ipnetwork::IpNetwork`, carried through unread.
#[verifier::external_type_specification]
#[verifier::external_body]
pub struct ExIpNetwork(ipnetwork::IpNetwork);

/// What `ipnetwork::IpNetwork`'s `FromStr` gives for a text: the network it
/// spells (an IPv4 or IPv6 address, optionally with a prefix length), or
/// `None` when it spells none.
pub uninterp spec fn ip_network_parse(text: Seq<char>) -> Option<ipnetwork::IpNetwork>;

/// `text.parse::<ipnetwork::IpNetwork>().ok()`: its result is a function of
/// the text alone, named `ip_network_parse`; which texts parse is not spelled
/// out.
#[verifier::external_body]
fn parse_ip_network(text: &str) -> (r: Option<ipnetwork::IpNetwork>)
    ensures
        r == ip_network_parse(text@),
{
    text.parse().ok()
}

/// Fly's edge terminates TLS and forwards the real client address in
/// `Fly-Client-IP`; `X-Forwarded-For` is a fallback for local/other
/// environments. The header values come in as text, `None` when absent or
/// not visible ASCII.
pub fn client_ip(fly_client_ip: Option<&str>, forwarded_for: Option<&str>) -> (r: Option<
    ipnetwork::IpNetwork,
>)
    ensures
        r == match spec_client_ip_text(opt_str_view(fly_client_ip), opt_str_view(forwarded_for)) {
            Some(t) => ip_network_parse(t),
            None => None,
        },
{
    let raw: Vec<char> = match fly_client_ip {
        Some(f) => chars_of(f),
        None => match forwarded_for {
            Some(x) => before_comma_exec(x),
            None => return None,
        },
    };
    let trimmed = trim_ws_chars(raw.as_slice());
    let text = string_of(trimmed.as_slice());
    parse_ip_network(text.as_str())
}

} // verus!

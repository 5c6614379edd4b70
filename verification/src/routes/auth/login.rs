//! The start of a sign-in: fresh PKCE, state and nonce, and the URL that
//! sends the browser to Hytale.

use vstd::prelude::*;

use super::oauth_state::{sanitize_redirect_path, spec_sanitize_redirect_path, OauthState};
use crate::hytale::client::{authorize_pairs, authorize_url, url_with_query_pairs};
use crate::hytale::pkce::{is_urlsafe_of_len, random_urlsafe, s256_challenge, Pkce};

verus! {

/// The `redirect` query of `/auth/hytale/login`.
#[derive(Debug, Clone)]
pub struct LoginQuery {
    pub redirect: Option<String>,
}

/// A sign-in about to start: where to send the browser, and what to keep
/// until it comes back.
pub struct LoginRedirect {
    pub authorize_url: String,
    pub oauth_state: OauthState,
}

/// Draws the sign-in's secrets and builds the authorization URL for the
/// given endpoint and client settings.
pub fn build_redirect(
    authorization_endpoint: &str,
    client_id: &str,
    redirect_uri: &str,
    scopes: &str,
    query: LoginQuery,
) -> (r: Result<LoginRedirect, url::ParseError>)
    ensures
        ({
            let raw = match query.redirect {
                Some(p) => Some(p@),
                None => None,
            };
            match r {
                Ok(l) => {
                    let s = l.oauth_state;
                    &&& is_urlsafe_of_len(s.state@, 16)
                    &&& is_urlsafe_of_len(s.nonce@, 16)
                    &&& is_urlsafe_of_len(s.verifier@, 32)
                    &&& s.redirect_path@ == spec_sanitize_redirect_path(raw)
                    &&& url_with_query_pairs(
                        authorization_endpoint@,
                        authorize_pairs(
                            client_id@,
                            redirect_uri@,
                            scopes@,
                            s.state@,
                            s.nonce@,
                            s256_challenge(s.verifier@),
                        ),
                    ) == Some(l.authorize_url@)
                },
                Err(_) => exists|st: Seq<char>, nonce: Seq<char>, verifier: Seq<char>|
                    #[trigger] url_with_query_pairs(
                        authorization_endpoint@,
                        authorize_pairs(
                            client_id@,
                            redirect_uri@,
                            scopes@,
                            st,
                            nonce,
                            s256_challenge(verifier),
                        ),
                    ) is None,
            }
        }),
{
    let pkce = Pkce::generate();
    let oauth_state = random_urlsafe(16);
    let nonce = random_urlsafe(16);
    let redirect_path = match &query.redirect {
        Some(p) => sanitize_redirect_path(Some(p.as_str())),
        None => sanitize_redirect_path(None),
    };
    let url = authorize_url(
        authorization_endpoint,
        client_id,
        redirect_uri,
        scopes,
        oauth_state.as_str(),
        nonce.as_str(),
        pkce.challenge.as_str(),
    )?;
    Ok(
        LoginRedirect {
            authorize_url: url,
            oauth_state: OauthState {
                state: oauth_state,
                nonce,
                verifier: pkce.verifier,
                redirect_path,
            },
        },
    )
}

} // verus!

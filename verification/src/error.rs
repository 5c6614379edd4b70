//! Typed API errors. Handlers produce `Result<T, ApiError>`; both branches
//! render into the same response envelope. Errors raised by outside
//! libraries are carried by their message.

use vstd::prelude::*;

verus! {

#[derive(Debug, Clone)]
pub enum ApiError {
    BadRequest(String),
    Unauthorized,
    NotFound,
    /// Surfaced from Hytale's authorization/token endpoints, or from failed
    /// id_token validation. Always the user's fault or a stale link, never
    /// worth a 500 or a Sentry-grade log line.
    HytaleAuth(String),
    Database(String),
    Pool(String),
    Http(String),
    Jwt(String),
    Internal(String),
}

impl ApiError {
    /// The HTTP status code of the response.
    pub open spec fn spec_status(&self) -> u16 {
        match self {
            ApiError::BadRequest(_) => 400,
            ApiError::Unauthorized => 401,
            ApiError::NotFound => 404,
            ApiError::HytaleAuth(_) => 400,
            ApiError::Database(_) => 500,
            ApiError::Pool(_) => 500,
            ApiError::Http(_) => 502,
            ApiError::Jwt(_) => 401,
            ApiError::Internal(_) => 500,
        }
    }

    /// The machine-readable code in the response envelope.
    pub open spec fn spec_code(&self) -> Seq<char> {
        match self {
            ApiError::BadRequest(_) => "BAD_REQUEST"@,
            ApiError::Unauthorized => "UNAUTHORIZED"@,
            ApiError::NotFound => "NOT_FOUND"@,
            ApiError::HytaleAuth(_) => "HYTALE_AUTH_FAILED"@,
            ApiError::Database(_) => "DATABASE_ERROR"@,
            ApiError::Pool(_) => "DATABASE_ERROR"@,
            ApiError::Http(_) => "UPSTREAM_ERROR"@,
            ApiError::Jwt(_) => "INVALID_TOKEN"@,
            ApiError::Internal(_) => "INTERNAL_ERROR"@,
        }
    }

    /// The human-readable message in the response envelope.
    pub open spec fn spec_message(&self) -> Seq<char> {
        match self {
            ApiError::BadRequest(m) => "invalid request: "@ + m@,
            ApiError::Unauthorized => "unauthorized"@,
            ApiError::NotFound => "not found"@,
            ApiError::HytaleAuth(m) => "hytale sign-in failed: "@ + m@,
            ApiError::Database(m) => "database error: "@ + m@,
            ApiError::Pool(m) => "database pool error: "@ + m@,
            ApiError::Http(m) => "upstream request failed: "@ + m@,
            ApiError::Jwt(m) => "token error: "@ + m@,
            ApiError::Internal(m) => "internal error: "@ + m@,
        }
    }

    /// Errors that are the caller's doing and need no error-level log line.
    pub open spec fn spec_is_expected(&self) -> bool {
        match self {
            ApiError::BadRequest(_) | ApiError::Unauthorized | ApiError::NotFound
            | ApiError::HytaleAuth(_) | ApiError::Jwt(_) => true,
            _ => false,
        }
    }

    pub fn status(&self) -> (s: u16)
        ensures
            s == self.spec_status(),
    {
        match self {
            ApiError::BadRequest(_) => 400,
            ApiError::Unauthorized => 401,
            ApiError::NotFound => 404,
            ApiError::HytaleAuth(_) => 400,
            ApiError::Database(_) => 500,
            ApiError::Pool(_) => 500,
            ApiError::Http(_) => 502,
            ApiError::Jwt(_) => 401,
            ApiError::Internal(_) => 500,
        }
    }

    pub fn code(&self) -> (c: &'static str)
        ensures
            c@ == self.spec_code(),
    {
        match self {
            ApiError::BadRequest(_) => "BAD_REQUEST",
            ApiError::Unauthorized => "UNAUTHORIZED",
            ApiError::NotFound => "NOT_FOUND",
            ApiError::HytaleAuth(_) => "HYTALE_AUTH_FAILED",
            ApiError::Database(_) => "DATABASE_ERROR",
            ApiError::Pool(_) => "DATABASE_ERROR",
            ApiError::Http(_) => "UPSTREAM_ERROR",
            ApiError::Jwt(_) => "INVALID_TOKEN",
            ApiError::Internal(_) => "INTERNAL_ERROR",
        }
    }

    pub fn message(&self) -> (m: String)
        ensures
            m@ == self.spec_message(),
    {
        match self {
            ApiError::BadRequest(m) => prefixed("invalid request: ", m),
            ApiError::Unauthorized => "unauthorized".to_owned(),
            ApiError::NotFound => "not found".to_owned(),
            ApiError::HytaleAuth(m) => prefixed("hytale sign-in failed: ", m),
            ApiError::Database(m) => prefixed("database error: ", m),
            ApiError::Pool(m) => prefixed("database pool error: ", m),
            ApiError::Http(m) => prefixed("upstream request failed: ", m),
            ApiError::Jwt(m) => prefixed("token error: ", m),
            ApiError::Internal(m) => prefixed("internal error: ", m),
        }
    }

    /// Whether the error is one of the expected kinds; the others are logged
    /// at error level and reported to Sentry.
    pub fn is_expected(&self) -> (b: bool)
        ensures
            b == self.spec_is_expected(),
    {
        match self {
            ApiError::BadRequest(_) | ApiError::Unauthorized | ApiError::NotFound
            | ApiError::HytaleAuth(_) | ApiError::Jwt(_) => true,
            _ => false,
        }
    }
}

fn prefixed(prefix: &str, m: &String) -> (r: String)
    ensures
        r@ == prefix@ + m@,
{
    let mut r = prefix.to_owned();
    r.append(m.as_str());
    r
}

/// An error goes unlogged exactly when its status is a client error (below 500);
/// every server-side failure is logged.
pub proof fn lemma_expected_iff_client_status(e: ApiError)
    ensures
        e.spec_is_expected() <==> e.spec_status() < 500,
        e.spec_status() >= 400,
{
}

/// A failed Hytale sign-in is a 400, never a 500, and is never logged as an error.
pub proof fn lemma_hytale_auth_is_client_error(m: String)
    ensures
        ApiError::HytaleAuth(m).spec_status() == 400,
        ApiError::HytaleAuth(m).spec_is_expected(),
{
}

} // verus!

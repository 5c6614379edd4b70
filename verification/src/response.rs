//! The parts of the response envelope that do not depend on the clock.

use vstd::prelude::*;

use crate::error::ApiError;

verus! {

#[derive(Debug, Clone)]
pub struct ErrorPayload {
    pub code: String,
    pub message: String,
}

impl ErrorPayload {
    /// The `error` member of the envelope for a failed request.
    pub fn from_error(error: &ApiError) -> (p: ErrorPayload)
        ensures
            p.code@ == error.spec_code(),
            p.message@ == error.spec_message(),
    {
        ErrorPayload { code: error.code().to_owned(), message: error.message() }
    }
}

} // verus!

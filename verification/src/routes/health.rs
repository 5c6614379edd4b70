//! Readiness: the service is ready when the database answers.

use vstd::prelude::*;

verus! {

/// `200` when the database answered, else `503`.
pub fn readiness_status(database: bool) -> (s: u16)
    ensures
        s == (if database { 200u16 } else { 503u16 }),
{
    if database {
        200
    } else {
        503
    }
}

} // verus!

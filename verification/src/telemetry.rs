//! Error reporting settings.

use vstd::prelude::*;

use crate::text::str_eq;

verus! {

/// The environment name reported with errors: `production` when `RUN_ENV`
/// is `production` or `prod`, else `development`.
pub open spec fn spec_environment(run_env: Option<Seq<char>>) -> Seq<char> {
    match run_env {
        Some(e) => if e == "production"@ || e == "prod"@ {
            "production"@
        } else {
            "development"@
        },
        None => "development"@,
    }
}

pub fn environment(run_env: Option<&str>) -> (e: &'static str)
    ensures
        e@ == spec_environment(
            match run_env {
                Some(s) => Some(s@),
                None => None,
            },
        ),
{
    match run_env {
        Some(e) => {
            if str_eq(e, "production") || str_eq(e, "prod") {
                "production"
            } else {
                "development"
            }
        },
        None => "development",
    }
}

/// Error reporting is on when a non-empty DSN is configured.
pub fn reporting_enabled(sentry_dsn: &Option<String>) -> (b: bool)
    ensures
        b == (sentry_dsn matches Some(d) && d@.len() > 0),
{
    match sentry_dsn {
        Some(d) => !d.as_str().is_empty(),
        None => false,
    }
}

} // verus!

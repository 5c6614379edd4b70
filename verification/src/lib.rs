use vstd::prelude::*;

pub mod config;
pub mod cookies;
pub mod digest;
pub mod encoding;
pub mod error;
pub mod http_log;
pub mod hytale;
pub mod jwt;
pub mod random;
pub mod response;
pub mod telemetry;
pub mod text;
pub mod routes;

verus! {

} // verus!

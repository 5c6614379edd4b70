pub mod claims;
pub mod client;
pub mod discovery;
pub mod pkce;

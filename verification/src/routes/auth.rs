pub mod callback;
pub mod extract;
pub mod login;
pub mod oauth_state;
pub mod session;
pub mod sign_in;

pub mod auth;
pub mod health;

pub mod auth;
pub mod clock;
pub mod digest;
pub mod error;
pub mod jwt;
pub mod laws;
pub mod middleware;
pub mod models;
pub mod password;
pub mod role;
pub mod tokens;

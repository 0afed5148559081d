pub mod error;
pub mod types;
pub mod token;
pub mod header;
pub mod password;
pub mod encryption;
pub mod auth;
pub mod vault;

//! Stateless bearer-token authentication.
//!
//! A client trades its credentials for a signed token that lives for a fixed
//! window; the token is handed back on protected requests and checked without
//! any state on the server. This crate holds the token lifecycle with its
//! contracts; transport, routing and configuration loading live around it.

pub mod errors;
pub mod text;
pub mod claims;
pub mod jwt;
pub mod frame;
pub mod keys;
pub mod clock;
pub mod body;
pub mod token;
pub mod config;
pub mod login;
pub mod bearer;

//! Credential-issuing authentication core: input validation, token claims
//! lifecycle, identity extraction and the startup schema guard.

pub mod accounts;
pub mod config;
pub mod error;
pub mod extractor;
pub mod jwt;
pub mod models;
pub mod schema;
pub mod text;
pub mod users;

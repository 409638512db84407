//! Identity resolution and session issuance: local credentials, federated
//! identities, account linking and signed session tokens.

pub mod account;
pub mod auth;
pub mod config;
pub mod credentials;
pub mod errors;
pub mod handlers;
pub mod ids;
pub mod models;
pub mod oauth;
pub mod resolver;
pub mod security;
pub mod store;
pub mod text;
pub mod token;

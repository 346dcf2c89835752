//! DevBridge control-plane primitives: runtime settings, credentials,
//! local configuration and the REST API.
pub mod settings;
pub mod api;
pub mod auth;
pub mod config;
pub mod login;

//! The DevBridge command-line front end: API requests, configuration,
//! messages, release checks and the login callback.
pub mod updater;
pub mod config;
pub mod api;
pub mod i18n;
pub mod auth;
pub mod commands;
pub mod netutil;
pub mod transport;
pub mod output;

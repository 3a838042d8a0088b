//! What the operations of the library are for: laws over the contracts of its functions, each in
//! terms of what goes in and what comes out, and of the other side where there is one.
pub mod app;
pub mod auth;
pub mod basics;
pub mod bridge;
pub mod client;
pub mod commands;
pub mod config;
pub mod daemon;
pub mod exchange;
pub mod host;
pub mod keychain;
pub(crate) mod names;
pub mod queries;
pub mod status;
pub mod words;

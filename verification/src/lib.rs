//! The logic of a client and daemon for Apple's password manager: the session with the helper,
//! the messages, the configuration, and how the daemon is launched and answers.
pub mod text;
pub mod json;
pub mod bignum;
pub mod error;
pub mod types;
pub mod codec;
pub mod crypto;
pub mod secrets;
pub mod clock;
pub mod utils;
pub mod srp;
pub mod host;
pub mod native_app;
pub mod preflight;
pub mod client;
pub mod manager;
pub mod bridge;
pub mod daemon;
pub mod cli;
pub mod laws;

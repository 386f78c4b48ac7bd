//! Bearer-token authentication against a published set of signing keys,
//! together with the configuration and secrets helpers that feed it.
//!
//! The crate decides and computes; it reads no file, opens no connection and
//! runs no program. What it needs from outside comes in as plain values.

pub mod auth;
pub mod config;
pub mod config_reader;
pub mod error;
pub mod error_kind;
pub mod secrets;
pub mod test_base;
pub mod text;
pub mod text_map;

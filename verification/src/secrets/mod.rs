//! Secrets, read from a secrets manager.

pub mod bitwarden_secrets_manager;
pub mod secrets_manager;

//! Validation of bearer tokens against a published set of signing keys.

pub mod authorization;
pub mod error_kind;
pub mod headers;
pub mod jwt;
pub mod jwt_token;
pub mod jwt_token_validator;
pub mod key_set;
pub mod token;
pub mod token_validator;

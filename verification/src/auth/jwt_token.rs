//! The token that the JWT validator hands out.

use vstd::prelude::*;
use std::collections::HashMap;
use crate::auth::token::Token;

verus! {

/// `jsonwebtoken::TokenData`: the header and the claims of a decoded token.
/// Nothing is claimed of what it holds.
#[verifier::external_type_specification]
#[verifier::external_body]
#[verifier::reject_recursive_types(T)]
pub struct ExTokenData<T>(jsonwebtoken::TokenData<T>);

/// `serde_json::Value`: any JSON value. Nothing is claimed of what it holds.
#[verifier::external_type_specification]
#[verifier::external_body]
pub struct ExJsonValue(serde_json::Value);

/// A validated JWT: its header and its claims, by name.
#[derive(Debug)]
pub struct JwtToken {
    token_data: jsonwebtoken::TokenData<HashMap<String, serde_json::Value>>,
}

impl JwtToken {
    /// The decoded data that the token wraps.
    pub closed spec fn data(&self) -> jsonwebtoken::TokenData<HashMap<String, serde_json::Value>> {
        self.token_data
    }

    /// The token that wraps `token_data`.
    pub fn new(token_data: jsonwebtoken::TokenData<HashMap<String, serde_json::Value>>) -> (token:
        JwtToken)
        ensures
            token.data() == token_data,
    {
        JwtToken { token_data }
    }
}

impl Token for JwtToken {
}

} // verus!

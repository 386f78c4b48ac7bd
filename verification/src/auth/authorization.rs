//! The guard in front of protected operations: it takes the bearer token out
//! of the headers of a request and has it validated.

use vstd::prelude::*;
use vstd::string::StrSliceExecFns;
use std::sync::Arc;
use axum::http::HeaderMap;
use axum::http::HeaderValue;
use crate::auth::error_kind::INVALID_HEADERS;
use crate::auth::headers::first_value;
use crate::auth::headers::held_value;
use crate::auth::headers::reads_as_text;
use crate::auth::headers::text_of;
use crate::auth::headers::value_text;
use crate::auth::token_validator::failure_of;
use crate::auth::token_validator::TokenValidator;
use crate::error::Error;

verus! {

pub const AUTHORIZATION_HEADER: &'static str = "Authorization";

pub const HEADER_MISSING: &'static str = "'Authorization' header is missing";

pub const HEADER_UNREADABLE: &'static str = "could not read 'Authorization' header as string";

pub const HEADER_TOO_SHORT: &'static str = "'Authorization' header value is invalid";

/// The number of characters of the scheme `Bearer` and the space after it.
pub const SCHEME_LENGTH: usize = 7;

/// The token in the text of an `Authorization` header: what follows its first
/// seven characters. A shorter text fails as `invalid_headers`. The seven
/// characters themselves are not looked at.
pub fn bearer_token(authorization: &str) -> (token: Result<&str, Error>)
    ensures
        match token {
            Ok(rest) => authorization@.len() >= SCHEME_LENGTH && rest@ == authorization@.skip(
                SCHEME_LENGTH as int,
            ),
            Err(error) => authorization@.len() < SCHEME_LENGTH && error@.kind == INVALID_HEADERS@
                && error@.message == HEADER_TOO_SHORT@,
        },
{
    let length = authorization.unicode_len();
    if length < SCHEME_LENGTH {
        return Err(Error::new(INVALID_HEADERS, HEADER_TOO_SHORT));
    }
    Ok(authorization.substring_char(SCHEME_LENGTH, length))
}

/// Why the `Authorization` header of a request gives no token, if it gives
/// none, by the message of the failure; else the token.
pub enum Credential {
    /// The request has no `Authorization` header.
    Missing,
    /// The value of the header is no text.
    Unreadable,
    /// The text of the header is shorter than the scheme.
    TooShort,
    /// The token that the header carries.
    Token(Seq<char>),
}

/// What the first value of the `Authorization` header, if there is one, gives.
pub open spec fn credential(value: Option<Seq<u8>>) -> Credential {
    match value {
        None => Credential::Missing,
        Some(bytes) => if !reads_as_text(bytes) {
            Credential::Unreadable
        } else if bytes.len() < SCHEME_LENGTH {
            Credential::TooShort
        } else {
            Credential::Token(text_of(bytes).skip(SCHEME_LENGTH as int))
        },
    }
}

/// A header value that reads as text and begins with a scheme of seven
/// characters carries the token that follows them, whatever the scheme is.
pub proof fn law_value_carries_token(scheme: Seq<u8>, token: Seq<u8>)
    requires
        scheme.len() == SCHEME_LENGTH,
        reads_as_text(scheme + token),
    ensures
        credential(Some(scheme + token)) == Credential::Token(text_of(token)),
{
    assert(text_of(scheme + token).skip(SCHEME_LENGTH as int) =~= text_of(token));
}

/// Lets a request pass where its bearer token is valid.
pub struct Authorization<V: TokenValidator> {
    token_validator: Arc<V>,
}

impl<V: TokenValidator> Authorization<V> {
    /// The validator that decides on the tokens.
    pub closed spec fn validator(&self) -> V {
        *self.token_validator
    }

    /// The guard that has its tokens validated by `token_validator`.
    pub fn new(token_validator: Arc<V>) -> (authorization: Authorization<V>)
        ensures
            authorization.validator() == *token_validator,
    {
        Authorization { token_validator }
    }

    /// Checks the `Authorization` header of a request. Without the header,
    /// with a value that is no text, or with a text shorter than seven
    /// characters, the request fails as `invalid_headers`. Else what follows
    /// the first seven characters goes to the validator, and the request
    /// passes or fails as the validator decides.
    pub fn validate(&self, headers: HeaderMap<HeaderValue>) -> (result: Result<(), Error>)
        ensures
            match credential(held_value(headers, AUTHORIZATION_HEADER@)) {
                Credential::Missing => result matches Err(error) && error@.kind == INVALID_HEADERS@
                    && error@.message == HEADER_MISSING@,
                Credential::Unreadable => result matches Err(error) && error@.kind
                    == INVALID_HEADERS@ && HEADER_UNREADABLE@.is_prefix_of(error@.message),
                Credential::TooShort => result matches Err(error) && error@.kind == INVALID_HEADERS@
                    && error@.message == HEADER_TOO_SHORT@,
                Credential::Token(token) => self.validator().allows(token, failure_of(result)),
            },
    {
        let value = match first_value(&headers, AUTHORIZATION_HEADER) {
            Some(value) => value,
            None => {
                return Err(Error::new(INVALID_HEADERS, HEADER_MISSING));
            },
        };
        let authorization = match value_text(value) {
            Ok(text) => text,
            Err(detail) => {
                let error = Error::with_detail(INVALID_HEADERS, HEADER_UNREADABLE, detail.as_str());
                assert(HEADER_UNREADABLE@.is_prefix_of(error@.message));
                return Err(error);
            },
        };
        let token = bearer_token(authorization)?;
        match self.token_validator.validate(token) {
            Ok(_) => Ok(()),
            Err(error) => Err(error),
        }
    }
}

} // verus!

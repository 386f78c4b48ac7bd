//! What every validator of tokens offers.

use vstd::prelude::*;
use std::sync::Arc;
use crate::auth::token::Token;
use crate::error::Error;
use crate::error::ErrorView;

verus! {

/// How a validation ended, with the accepted token left out: `None` where the
/// token was accepted, else the failure.
pub open spec fn failure_of<T>(result: Result<T, Error>) -> Option<ErrorView> {
    match result {
        Ok(_) => None,
        Err(error) => Some(error@),
    }
}

pub trait TokenValidator {
    /// The token that a successful validation hands out.
    type Validated: Token;

    /// Whether a validation of `token` may end in `failure`, where `None`
    /// stands for acceptance. A validator that says nothing of itself allows
    /// every end.
    open spec fn allows(&self, token: Seq<char>, failure: Option<ErrorView>) -> bool {
        true
    }

    /// Validates `token`: the token on success, else the failure, whose kind is
    /// `invalid_token` where a well-formed token was not trusted.
    fn validate(&self, token: &str) -> (result: Result<Arc<Self::Validated>, Error>)
        ensures
            self.allows(token@, failure_of(result)),
    ;
}

} // verus!

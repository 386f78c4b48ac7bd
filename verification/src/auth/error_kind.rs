//! Kinds of failure of the authentication pipeline.

use vstd::prelude::*;

verus! {

pub const JWKS_RETRIEVAL_FAILURE: &'static str = "jwks_retrieval_failure";

pub const MALFORMED_TOKEN: &'static str = "malformed_token";

pub const INVALID_TOKEN: &'static str = "invalid_token";

pub const INVALID_HEADERS: &'static str = "invalid_headers";

/// The four kinds are four: no failure can be taken for one of another
/// kind.
pub proof fn law_kinds_are_distinct()
    ensures
        JWKS_RETRIEVAL_FAILURE@ != MALFORMED_TOKEN@,
        JWKS_RETRIEVAL_FAILURE@ != INVALID_TOKEN@,
        JWKS_RETRIEVAL_FAILURE@ != INVALID_HEADERS@,
        MALFORMED_TOKEN@ != INVALID_TOKEN@,
        MALFORMED_TOKEN@ != INVALID_HEADERS@,
        INVALID_TOKEN@ != INVALID_HEADERS@,
{
    reveal_strlit("jwks_retrieval_failure");
    reveal_strlit("malformed_token");
    reveal_strlit("invalid_token");
    reveal_strlit("invalid_headers");
    assert(JWKS_RETRIEVAL_FAILURE@.len() == 22);
    assert(MALFORMED_TOKEN@.len() == 15);
    assert(INVALID_TOKEN@.len() == 13);
    assert(INVALID_HEADERS@.len() == 15);
    assert(MALFORMED_TOKEN@[0] == 'm');
    assert(INVALID_HEADERS@[0] == 'i');
}

} // verus!

//! Kinds of failure shared by the whole crate.

use vstd::prelude::*;

verus! {

pub const SERIALIZATION_FAILURE: &'static str = "serialization_failure";

pub const SECRETS_MANAGER_FAILURE: &'static str = "secrets_manager_failure";

pub const REQUEST_FAILURE: &'static str = "request_failure";

pub const TIMED_OUT: &'static str = "timed_out";

pub const COMPRESSION_FAILURE: &'static str = "compression_failure";

/// The kind of the failure to find a file, in the words of the operating
/// system's errors, and of the failure to find a key.
pub const NOT_FOUND: &'static str = "entity not found";

pub const NOT_IMPLEMENTED: &'static str = "not_implemented";

} // verus!

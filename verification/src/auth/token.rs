//! The mark of a token that passed validation.

use vstd::prelude::*;
use std::fmt::Debug;

verus! {

/// A token that a validator accepted. The trait opens nothing of the token:
/// holding one is the proof that validation succeeded.
pub trait Token: Debug {
}

} // verus!

//! What every source of secrets offers.

use vstd::prelude::*;
use crate::error::Error;

verus! {

pub trait SecretsManager {
    /// The secret that goes by `secret_id`.
    fn get_secret(&self, secret_id: &str) -> Result<String, Error>;
}

} // verus!

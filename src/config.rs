//! Bot credentials.

use vstd::prelude::*;

verus! {

/// Credentials for connecting to the chat service.
pub struct Config {
    pub token: String,
    pub application_id: u64,
}

} // verus!

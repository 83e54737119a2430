//! What is fixed for a session when it is set up.

use vstd::prelude::*;

verus! {

/// Settings of a session.
#[derive(Clone, Copy, Debug, PartialEq, Eq, Structural)]
pub struct Config {
    /// How many times a DNS-over-HTTPS query is sent again after an empty
    /// reply.
    pub doh_retries: u32,
    /// The pause before each of those retries, in milliseconds.
    pub doh_backoff_ms: u64,
}

} // verus!

//! Tier 1 rate limits (paid billing account linked).
pub mod tier_1;

use vstd::prelude::*;

verus! {

/// The rate limits of a model.
#[derive(Debug, Clone, Copy)]
pub struct RateLimit {
    /// Requests per minute.
    pub rpm: u32,
    /// Input tokens per minute.
    pub tpm: u32,
    /// Requests per day (0 means unlimited).
    pub rpd: u32,
    /// Batch enqueued tokens (0 means the Batch API is not supported).
    pub batch_tokens: u64,
}

impl RateLimit {
    /// A rate limit with the given values.
    pub fn new(rpm: u32, tpm: u32, rpd: u32, batch_tokens: u64) -> (r: Self)
        ensures
            r == (RateLimit { rpm, tpm, rpd, batch_tokens }),
    {
        Self { rpm, tpm, rpd, batch_tokens }
    }
}

}

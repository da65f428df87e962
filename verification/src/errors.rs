use vstd::prelude::*;

verus! {

/// The provider refused the batch request because the caller's network
/// origin is not on the provider's whitelist.
#[derive(Debug, Clone, Copy, PartialEq, Eq, Structural)]
pub struct CurrentIPNotInWhitelistError;

impl CurrentIPNotInWhitelistError {
    /// A human-readable description of this error.
    pub fn message(&self) -> (s: &'static str)
        ensures
            s@ == "Current IP is not in whitelist"@,
    {
        "Current IP is not in whitelist"
    }
}

/// Every failure the pool can report to its caller.
#[derive(Debug, Clone, Copy, PartialEq, Eq, Structural)]
pub enum PoolError {
    /// Transport failure or response-decoding failure while fetching a batch.
    Provisioning,
    /// The provider rejected the fetch: caller's origin is not authorized.
    NotWhitelisted(CurrentIPNotInWhitelistError),
    /// No usable record is available, even after any refill attempt.
    PoolExhausted,
    /// The provider answered with a response code this pool does not know.
    UnexpectedProviderResponse(u32),
}

} // verus!

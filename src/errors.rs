use vstd::prelude::*;

use crate::status::Status;

verus! {

/// The time crate's error for a value out of its allowed range.
#[verifier::external_type_specification]
#[verifier::external_body]
pub struct ExComponentRange(time::error::ComponentRange);

/// Failure modes of the rate limiter.
#[derive(Debug)]
pub enum Error {
    /// The counter store failed to track a key.
    Track(String),
    /// The limit is exceeded for a key; the status of the counted request is kept.
    LimitExceeded(Status),
    /// A reset time could not be represented as a date.
    Time(time::error::ComponentRange),
    /// Any other failure.
    Other(String),
}

/// The short description of each kind of failure.
pub open spec fn message_of(e: Error) -> Seq<char> {
    match e {
        Error::Track(_) => "Failed to Track connection"@,
        Error::LimitExceeded(_) => "Limit is exceeded for a key"@,
        Error::Time(_) => "Time conversion failed"@,
        Error::Other(_) => "Generic error"@,
    }
}

impl Error {
    /// A short description of the failure.
    pub fn message(&self) -> (r: &'static str)
        ensures
            r@ == message_of(*self),
    {
        proof {
            reveal_strlit("Failed to Track connection");
            reveal_strlit("Limit is exceeded for a key");
            reveal_strlit("Time conversion failed");
            reveal_strlit("Generic error");
        }
        match self {
            Error::Track(_) => "Failed to Track connection",
            Error::LimitExceeded(_) => "Limit is exceeded for a key",
            Error::Time(_) => "Time conversion failed",
            Error::Other(_) => "Generic error",
        }
    }
}

} // verus!

use vstd::prelude::*;

use crate::errors::Error;
use crate::limiter::{agrees, DataSource, Limiter};
use crate::status::Status;

verus! {

/// What becomes of one intercepted request.
#[derive(Debug)]
pub enum Verdict {
    /// Hand the request to the downstream handler; the status of the counted
    /// request, where it was counted.
    Forward(Option<Status>),
    /// Answer "too many requests" without calling the downstream handler.
    TooManyRequests(Status),
    /// Answer with a server error without calling the downstream handler: the
    /// limit could not be checked.
    ServerError(Error),
}

/// The verdict on a request whose counting gave `r`.
pub open spec fn verdict_spec(r: Result<Status, Error>) -> Verdict {
    match r {
        Ok(s) => Verdict::Forward(Some(s)),
        Err(Error::LimitExceeded(s)) => Verdict::TooManyRequests(s),
        Err(e) => Verdict::ServerError(e),
    }
}

/// The verdict on a request whose counting gave `r`: forward on success,
/// "too many requests" once the limit is exceeded, a server error on any
/// other failure.
pub fn verdict_of(r: Result<Status, Error>) -> (v: Verdict)
    ensures
        v == verdict_spec(r),
{
    match r {
        Ok(s) => Verdict::Forward(Some(s)),
        Err(Error::LimitExceeded(s)) => Verdict::TooManyRequests(s),
        Err(e) => Verdict::ServerError(e),
    }
}

/// HTTP status code of the response that a rejecting verdict produces.
pub open spec fn reject_code_spec(v: Verdict) -> Option<u16> {
    match v {
        Verdict::Forward(_) => None,
        Verdict::TooManyRequests(_) => Some(429u16),
        Verdict::ServerError(_) => Some(500u16),
    }
}

impl Verdict {
    /// HTTP status code of the response that a rejecting verdict produces;
    /// `None` where the request goes downstream.
    pub fn reject_code(&self) -> (r: Option<u16>)
        ensures
            r == reject_code_spec(*self),
    {
        match self {
            Verdict::Forward(_) => None,
            Verdict::TooManyRequests(_) => Some(429),
            Verdict::ServerError(_) => Some(500),
        }
    }
}

impl<T: DataSource> Limiter<T> {
    /// Decides on a request whose identity resolved to `key`: without a key
    /// the request is forwarded uncounted; otherwise one unit of the key's
    /// limit is consumed and the outcome decides.
    pub fn decide(&self, key: Option<&str>) -> (v: Verdict)
        ensures
            key is None ==> v == Verdict::Forward(None),
            key is Some ==> exists|r: Result<Status, Error>| agrees(r, self.limit) && v == verdict_spec(r),
            v is Forward ==> key is None || (v->Forward_0 is Some && 1 <= v->Forward_0->Some_0.count
                <= self.limit),
            v is TooManyRequests ==> v->TooManyRequests_0.count > self.limit,
            v is ServerError ==> !(v->ServerError_0 is LimitExceeded),
    {
        match key {
            None => Verdict::Forward(None),
            Some(k) => {
                let r = self.count(k);
                let v = verdict_of(r);
                proof {
                    assert(agrees(r, self.limit) && v == verdict_spec(r));
                }
                v
            },
        }
    }
}

} // verus!

use vstd::prelude::*;

use crate::errors::Error;

verus! {

/// What is left of `limit` after `count` requests: never below zero.
pub open spec fn remaining_of(count: int, limit: int) -> int {
    if count >= limit {
        0
    } else {
        limit - count
    }
}

/// First second of year -9999, as a Unix timestamp.
pub const MIN_TIMESTAMP: i64 = -377705116800;

/// Last second of year 9999, as a Unix timestamp.
pub const MAX_TIMESTAMP: i64 = 253402300799;

/// A reset `ttl` seconds after `now` is a representable date at or after
/// the epoch.
pub open spec fn reset_in_range(now: int, ttl: int) -> bool {
    0 <= now && now + ttl <= MAX_TIMESTAMP
}

/// Snapshot of one key's counter after one counted request.
#[derive(Debug, Clone, Copy, PartialEq, Eq)]
pub struct Status {
    /// Number of requests counted in the current window, this one included.
    pub count: usize,
    /// Configured ceiling.
    pub limit: usize,
    /// Requests still allowed in the current window.
    pub remaining: usize,
    /// Epoch second at which the current window expires.
    pub reset: u64,
}

impl Status {
    /// The remaining count agrees with the count and the limit.
    pub open spec fn wf(&self) -> bool {
        self.remaining == remaining_of(self.count as int, self.limit as int)
    }

    /// Builds the status of a request counted as `count` against `limit`.
    pub fn new(count: usize, limit: usize, reset: u64) -> (r: Status)
        ensures
            r.count == count,
            r.limit == limit,
            r.reset == reset,
            r.remaining == remaining_of(count as int, limit as int),
            r.remaining <= limit,
            count <= limit ==> r.remaining == limit - count,
            r.wf(),
    {
        let remaining: usize = if count >= limit {
            0
        } else {
            limit - count
        };
        Status { count, limit, remaining, reset }
    }

    /// Number of requests counted in the current window.
    pub fn count(&self) -> (r: usize)
        ensures
            r == self.count,
    {
        self.count
    }

    /// Configured ceiling.
    pub fn limit(&self) -> (r: usize)
        ensures
            r == self.limit,
    {
        self.limit
    }

    /// Requests still allowed in the current window.
    pub fn remaining(&self) -> (r: usize)
        ensures
            r == self.remaining,
    {
        self.remaining
    }

    /// Epoch second at which the current window expires.
    pub fn reset(&self) -> (r: u64)
        ensures
            r == self.reset,
    {
        self.reset
    }

    /// The epoch second `ttl` seconds after the epoch second `now`, checked
    /// to be a representable date: a clock before the epoch, or a sum that does
    /// not fit a timestamp, is refused.
    pub fn reset_at(now: i64, ttl: u64) -> (r: Result<u64, Error>)
        ensures
            r is Ok ==> 0 <= now && r->Ok_0 == now + ttl,
            (now < 0 || now + ttl > i64::MAX) ==> r is Err,
            reset_in_range(now as int, ttl as int) ==> r is Ok,
            r is Err ==> !reset_in_range(now as int, ttl as int),
            r is Err ==> (r->Err_0 is Time || r->Err_0 is Other),
            now < 0 ==> r is Err && r->Err_0 is Other,
    {
        proof {
            reveal_strlit("clock before the epoch");
            reveal_strlit("reset time out of range");
        }
        if now < 0 {
            return Err(Error::Other("clock before the epoch".to_owned()));
        }
        let t: i128 = now as i128 + ttl as i128;
        let probe: i64 = if t > i64::MAX as i128 {
            i64::MAX
        } else {
            t as i64
        };
        match checked_timestamp(probe) {
            Ok(v) => {
                if v as i128 == t {
                    Ok(v as u64)
                } else {
                    Err(Error::Other("reset time out of range".to_owned()))
                }
            },
            Err(e) => Err(Error::Time(e)),
        }
    }
}

/// Relies on time::OffsetDateTime::now_utc and unix_timestamp: the current
/// time in whole seconds since the Unix epoch.
#[verifier::external_body]
pub(crate) fn now_utc_seconds() -> (r: i64) {
    time::OffsetDateTime::now_utc().unix_timestamp()
}

/// Relies on time::OffsetDateTime::from_unix_timestamp: it accepts every
/// timestamp from the start of year -9999 to the end of year 9999, and one
/// that it accepts comes back unchanged from unix_timestamp.
#[verifier::external_body]
fn checked_timestamp(t: i64) -> (r: Result<i64, time::error::ComponentRange>)
    ensures
        MIN_TIMESTAMP <= t <= MAX_TIMESTAMP ==> r is Ok,
        r is Ok ==> r->Ok_0 == t,
{
    time::OffsetDateTime::from_unix_timestamp(t).map(|d| d.unix_timestamp())
}

} // verus!

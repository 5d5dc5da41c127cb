use vstd::prelude::*;

use crate::errors::Error;
use crate::status::{now_utc_seconds, remaining_of, reset_in_range, Status};
use crate::store::{entry_of, MemoryStore};
use crate::window::{step, step_ok};
use crate::{DEFAULT_PERIOD_SECS, DEFAULT_REQUEST_LIMIT};

verus! {

/// A counter store shared by every process that limits the same keys.
pub trait DataSource {
    /// Atomically sets `key` to zero with a time-to-live of `expires` seconds
    /// if it is absent, increments it, and returns the new count with the
    /// seconds the key has left to live; a failure is described in words.
    fn track(&self, key: &str, expires: u64) -> (r: Result<(usize, u64), String>)
        ensures
            r is Ok ==> r->Ok_0.0 >= 1,
    ;
}

/// What counting a request with count `count` against `limit` gives: the
/// status, as an error once the count exceeds the limit.
pub open spec fn outcome(count: usize, limit: usize, reset: u64) -> Result<Status, Error> {
    let s = Status {
        count,
        limit,
        remaining: remaining_of(count as int, limit as int) as usize,
        reset,
    };
    if count > limit {
        Err(Error::LimitExceeded(s))
    } else {
        Ok(s)
    }
}

/// A result of counting agrees with `limit`: a status comes back as the
/// outcome of its own count, and any other error is the store's failure.
pub open spec fn agrees(r: Result<Status, Error>, limit: usize) -> bool {
    match r {
        Ok(s) => r == outcome(s.count, limit, s.reset),
        Err(Error::LimitExceeded(s)) => r == outcome(s.count, limit, s.reset),
        Err(e) => e is Track || e is Time || e is Other,
    }
}

/// Rate limiter: a counter store, the number of requests a key may make in
/// one window, and the window's length in seconds.
#[derive(Debug, Clone)]
pub struct Limiter<T> {
    /// The counter store.
    pub client: T,
    /// Requests a key may make in one window.
    pub limit: usize,
    /// Window length, in seconds.
    pub period: u64,
    /// Name of the cookie that identifies a client where no other identity
    /// is configured.
    pub cookie_name: String,
}

/// Assembles a [`Limiter`] from defaults and overrides.
#[derive(Debug)]
pub struct Builder<T> {
    /// The counter store, until the limiter is built.
    pub client: Option<T>,
    /// Requests a key may make in one window.
    pub limit: usize,
    /// Window length, in seconds.
    pub period: u64,
    /// Name of the cookie that identifies a client where no other identity
    /// is configured.
    pub cookie_name: String,
}

impl<T> Limiter<T> {
    /// A builder with the default limit and period, a cookie name of `sid`,
    /// and `client` as the counter store.
    pub fn builder(client: T) -> (r: Builder<T>)
        ensures
            r.client == Some(client),
            r.limit == DEFAULT_REQUEST_LIMIT,
            r.period == DEFAULT_PERIOD_SECS,
            r.cookie_name@ == "sid"@,
    {
        proof {
            reveal_strlit("sid");
        }
        Builder {
            client: Some(client),
            limit: DEFAULT_REQUEST_LIMIT,
            period: DEFAULT_PERIOD_SECS,
            cookie_name: "sid".to_owned(),
        }
    }

    /// Configured ceiling.
    pub fn limit(&self) -> (r: usize)
        ensures
            r == self.limit,
    {
        self.limit
    }

    /// Window length, in seconds.
    pub fn period(&self) -> (r: u64)
        ensures
            r == self.period,
    {
        self.period
    }

    /// Turns what the store reported for one request, its count and the
    /// epoch second of the window's end, into the request's status.
    pub fn evaluate(&self, count: usize, reset: u64) -> (r: Result<Status, Error>)
        ensures
            r == outcome(count, self.limit, reset),
    {
        let status = Status::new(count, self.limit, reset);
        if count > self.limit {
            Err(Error::LimitExceeded(status))
        } else {
            Ok(status)
        }
    }

    /// Turns what the store answered for one request, its count and the
    /// seconds its window has left, into the request's status, with the
    /// window's end counted from the epoch second `now`.
    pub fn conclude(&self, answer: Result<(usize, u64), String>, now: i64) -> (r: Result<Status, Error>)
        ensures
            answer is Err ==> r == Err::<Status, Error>(Error::Track(answer->Err_0)),
            ({
                let (count, ttl) = answer->Ok_0;
                &&& answer is Ok && reset_in_range(now as int, ttl as int) ==> r == outcome(
                    count,
                    self.limit,
                    (now + ttl) as u64,
                )
                &&& answer is Ok && (r is Ok || r->Err_0 is LimitExceeded) ==> r == outcome(
                    count,
                    self.limit,
                    (now + ttl) as u64,
                )
                &&& answer is Ok && (now < 0 || now + ttl > i64::MAX) ==> r is Err
                &&& answer is Ok && r is Err ==> !(r->Err_0 is Track)
                &&& r is Err && r->Err_0 is Time ==> answer is Ok && !reset_in_range(now as int, ttl as int)
            }),
            agrees(r, self.limit),
    {
        match answer {
            Ok((count, ttl)) => match Status::reset_at(now, ttl) {
                Ok(reset) => self.evaluate(count, reset),
                Err(e) => Err(e),
            },
            Err(s) => Err(Error::Track(s)),
        }
    }

    /// Turns what the store answered for one request into the request's
    /// status, with the window's end counted from the system clock.
    pub fn settle(&self, answer: Result<(usize, u64), String>) -> (r: Result<Status, Error>)
        ensures
            answer is Err ==> r == Err::<Status, Error>(Error::Track(answer->Err_0)),
            answer is Ok ==> (r is Err ==> !(r->Err_0 is Track)),
            answer is Ok && r is Ok ==> r == outcome(answer->Ok_0.0, self.limit, r->Ok_0.reset),
            answer is Ok && r is Err && r->Err_0 is LimitExceeded ==> r == outcome(
                answer->Ok_0.0,
                self.limit,
                r->Err_0->LimitExceeded_0.reset,
            ),
            agrees(r, self.limit),
    {
        let now: i64 = now_utc_seconds();
        self.conclude(answer, now)
    }

    /// Consumes one unit of `key`'s limit in the in-process store `store`, at
    /// epoch second `now`.
    pub fn count_in(&self, store: &mut MemoryStore, key: &str, now: u64) -> (r: Result<Status, Error>)
        requires
            old(store).wf(),
        ensures
            final(store).wf(),
            ({
                let w = entry_of(old(store)@, key@);
                let n = step(w, self.period, now);
                &&& step_ok(w, self.period, now) ==> final(store)@ == old(store)@.insert(key@, n)
                    && r == outcome(n.count, self.limit, n.expires_at)
                &&& !step_ok(w, self.period, now) ==> final(store)@ == old(store)@ && r is Err
                    && r->Err_0 is Track
            }),
    {
        match store.track(key, self.period, now) {
            Ok((count, ttl)) => self.evaluate(count, now + ttl),
            Err(e) => Err(e),
        }
    }
}

impl<T: DataSource> Limiter<T> {
    /// Consumes one unit of `key`'s limit in the shared store, taking the
    /// window's end from the store's time-to-live and the system clock.
    pub fn count(&self, key: &str) -> (r: Result<Status, Error>)
        ensures
            agrees(r, self.limit),
            r is Ok ==> 1 <= r->Ok_0.count <= self.limit,
    {
        let answer = self.client.track(key, self.period);
        self.settle(answer)
    }
}

impl<T> Builder<T> {
    /// Sets the number of requests allowed in one window.
    pub fn limit(self, limit: usize) -> (r: Self)
        ensures
            r.limit == limit,
            r.period == self.period,
            r.client == self.client,
            r.cookie_name == self.cookie_name,
    {
        Builder { limit, ..self }
    }

    /// Sets the window length, in seconds.
    pub fn period(self, period: u64) -> (r: Self)
        ensures
            r.period == period,
            r.limit == self.limit,
            r.client == self.client,
            r.cookie_name == self.cookie_name,
    {
        Builder { period, ..self }
    }

    /// Sets the name of the cookie that identifies a client.
    pub fn cookie_name(self, name: &str) -> (r: Self)
        ensures
            r.cookie_name@ == name@,
            r.limit == self.limit,
            r.period == self.period,
            r.client == self.client,
    {
        Builder { cookie_name: name.to_owned(), ..self }
    }

    /// Builds the limiter, handing over the counter store; fails once the
    /// store has been handed over.
    pub fn build(&mut self) -> (r: Result<Limiter<T>, Error>)
        ensures
            final(self).client is None,
            final(self).limit == old(self).limit,
            final(self).period == old(self).period,
            final(self).cookie_name == old(self).cookie_name,
            r is Ok <==> old(self).client is Some,
            r is Ok ==> r->Ok_0.client == old(self).client->Some_0 && r->Ok_0.limit == old(self).limit
                && r->Ok_0.period == old(self).period && r->Ok_0.cookie_name == old(self).cookie_name,
            r is Err ==> r->Err_0 is Other,
    {
        proof {
            reveal_strlit("counter store already taken");
        }
        match self.client.take() {
            Some(client) => Ok(
                Limiter {
                    client,
                    limit: self.limit,
                    period: self.period,
                    cookie_name: self.cookie_name.clone(),
                },
            ),
            None => Err(Error::Other("counter store already taken".to_owned())),
        }
    }
}

} // verus!

use vstd::prelude::*;

use crate::decision::verdict_spec;
use crate::limiter::outcome;
use crate::status::remaining_of;
use crate::store::entry_of;
use crate::window::{is_live, step, step_ok, ttl_of, Window};

verus! {

/// The key's window after one tracking step at each of `times`, in order.
pub open spec fn run(w: Option<Window>, expires: u64, times: Seq<u64>) -> Option<Window>
    decreases times.len(),
{
    if times.len() == 0 {
        w
    } else {
        Some(step(run(w, expires, times.drop_last()), expires, times.last()))
    }
}

/// Calls at `times` that all fall in the window opened by the first of them.
pub open spec fn in_one_window(w: Option<Window>, period: u64, times: Seq<u64>) -> bool {
    &&& times.len() > 0
    &&& !is_live(w, times[0])
    &&& 0 < period
    &&& times[0] + period <= u64::MAX
    &&& times.len() <= usize::MAX
    &&& forall|i: int, j: int| 0 <= i <= j < times.len() ==> #[trigger] times[i] <= #[trigger] times[j]
    &&& forall|i: int| 0 <= i < times.len() ==> #[trigger] times[i] < times[0] + period
}

proof fn lemma_run_in_window(w: Option<Window>, period: u64, times: Seq<u64>)
    requires
        in_one_window(w, period, times),
    ensures
        run(w, period, times) == Some(
            Window { count: times.len() as usize, expires_at: (times[0] + period) as u64 },
        ),
        step_ok(run(w, period, times.drop_last()), period, times.last()),
    decreases times.len(),
{
    if times.len() > 1 {
        let prev = times.drop_last();
        assert(prev[0] == times[0]);
        assert(in_one_window(w, period, prev));
        lemma_run_in_window(w, period, prev);
    } else {
        assert(times.drop_last() =~= Seq::<u64>::empty());
    }
}

/// Within one window the first `limit` calls are allowed with counts 1, 2, ...
/// and `limit − count` remaining, and the next call is refused with the limit
/// exceeded and a count of `limit + 1`: after the `i + 1`-th of calls at
/// `times` (starting where the key has no live window, and all before the
/// window that the first opens ends), the key's window counts `i + 1` and ends
/// `period` seconds after the first call.
pub proof fn lemma_first_calls_in_window(w: Option<Window>, limit: usize, period: u64, times: Seq<u64>)
    requires
        in_one_window(w, period, times),
    ensures
        forall|i: int|
            #![trigger times.take(i + 1)]
            0 <= i < times.len() ==> {
                let n = run(w, period, times.take(i + 1));
                let r = outcome((i + 1) as usize, limit, (times[0] + period) as u64);
                &&& step_ok(run(w, period, times.take(i)), period, times[i])
                &&& n == Some(Window { count: (i + 1) as usize, expires_at: (times[0] + period) as u64 })
                &&& i + 1 <= limit ==> r is Ok && r->Ok_0.count == i + 1 && r->Ok_0.remaining == limit - (i + 1)
                &&& i + 1 == limit + 1 ==> r is Err && r->Err_0 is LimitExceeded
                    && r->Err_0->LimitExceeded_0.count == limit + 1
            },
{
    assert forall|i: int|
        #![trigger times.take(i + 1)]
        0 <= i < times.len() implies {
            let n = run(w, period, times.take(i + 1));
            let r = outcome((i + 1) as usize, limit, (times[0] + period) as u64);
            &&& step_ok(run(w, period, times.take(i)), period, times[i])
            &&& n == Some(Window { count: (i + 1) as usize, expires_at: (times[0] + period) as u64 })
            &&& i + 1 <= limit ==> r is Ok && r->Ok_0.count == i + 1 && r->Ok_0.remaining == limit - (i + 1)
            &&& i + 1 == limit + 1 ==> r is Err && r->Err_0 is LimitExceeded
                && r->Err_0->LimitExceeded_0.count == limit + 1
        } by {
        let pre = times.take(i + 1);
        assert(pre[0] == times[0]);
        assert(in_one_window(w, period, pre));
        lemma_run_in_window(w, period, pre);
        assert(pre.drop_last() =~= times.take(i));
    }
}

/// Once a window has expired the count starts again: the next call opens a
/// new window, counts 1 and is allowed.
pub proof fn lemma_window_resets(w: Window, limit: usize, period: u64, now: u64)
    requires
        now >= w.expires_at,
        0 < period,
        now + period <= u64::MAX,
        limit > 0,
    ensures
        step_ok(Some(w), period, now),
        step(Some(w), period, now) == (Window { count: 1, expires_at: (now + period) as u64 }),
        outcome(1, limit, (now + period) as u64) is Ok,
        outcome(1, limit, (now + period) as u64)->Ok_0.count == 1,
        outcome(1, limit, (now + period) as u64)->Ok_0.remaining == limit - 1,
{
}

/// Two calls racing at the start of a fresh window never both open it: the
/// first opens the window, the second only increments and keeps its expiry.
pub proof fn lemma_single_initializer(w: Option<Window>, period: u64, t1: u64, t2: u64)
    requires
        !is_live(w, t1),
        t1 <= t2 < t1 + period,
        t1 + period <= u64::MAX,
        0 < period,
    ensures
        step(w, period, t1) == (Window { count: 1, expires_at: (t1 + period) as u64 }),
        is_live(Some(step(w, period, t1)), t2),
        step(Some(step(w, period, t1)), period, t2) == (Window {
            count: 2,
            expires_at: step(w, period, t1).expires_at,
        }),
{
}

/// In the store, two calls on a key with no live window, one after the other
/// within the window that the first opens, set the key's expiry once: the
/// first counts 1 with `period` seconds left, the second counts 2 and keeps
/// the first's expiry, so both resets fall at the same second.
pub proof fn lemma_store_single_initializer(
    m: Map<Seq<char>, Window>,
    key: Seq<char>,
    period: u64,
    t1: u64,
    t2: u64,
)
    requires
        !is_live(entry_of(m, key), t1),
        t1 <= t2 < t1 + period,
        t1 + period <= u64::MAX,
        0 < period,
    ensures
        ({
            let a = step(entry_of(m, key), period, t1);
            let m1 = m.insert(key, a);
            let b = step(entry_of(m1, key), period, t2);
            let m2 = m1.insert(key, b);
            &&& step_ok(entry_of(m, key), period, t1) && step_ok(entry_of(m1, key), period, t2)
            &&& a.count == 1 && ttl_of(a, t1) == period
            &&& b.count == 2 && m2[key].count == 2
            &&& b.expires_at == a.expires_at == t1 + period
            &&& t1 + ttl_of(a, t1) == t2 + ttl_of(b, t2)
        }),
{
    let a = step(entry_of(m, key), period, t1);
    let m1 = m.insert(key, a);
    assert(entry_of(m1, key) == Some(a));
}

/// The remaining count is never negative, never above the limit, and is the
/// limit less the count while the count is within the limit.
pub proof fn lemma_remaining_bounds(count: usize, limit: usize)
    ensures
        0 <= remaining_of(count as int, limit as int) <= limit,
        count <= limit ==> remaining_of(count as int, limit as int) == limit - count,
        count >= limit ==> remaining_of(count as int, limit as int) == 0,
{
}

/// The reset time, the call's time plus the time-to-live that the store
/// reports, does not grow as time advances within a window, and is `now +
/// period` for a call that opens a new window.
pub proof fn lemma_reset_in_window(w: Option<Window>, period: u64, t1: u64, t2: u64)
    requires
        t1 <= t2,
        step_ok(w, period, t1),
        is_live(Some(step(w, period, t1)), t2),
    ensures
        ({
            let a = step(w, period, t1);
            let b = step(Some(a), period, t2);
            &&& t2 + ttl_of(b, t2) <= t1 + ttl_of(a, t1)
            &&& !is_live(w, t1) ==> t1 + ttl_of(a, t1) == t1 + period
        }),
{
}

/// A request counted beyond the limit is never forwarded.
pub proof fn lemma_exceeding_never_forwarded(count: usize, limit: usize, reset: u64)
    requires
        count > limit,
    ensures
        verdict_spec(outcome(count, limit, reset)) is TooManyRequests,
        !(verdict_spec(outcome(count, limit, reset)) is Forward),
{
}

} // verus!

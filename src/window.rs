use vstd::prelude::*;

use crate::errors::Error;

verus! {

/// One key's counter in the store: the count of the current window and the
/// epoch second at which the window expires.
#[derive(Debug, Clone, Copy, PartialEq, Eq)]
pub struct Window {
    /// Requests counted in this window.
    pub count: usize,
    /// Epoch second at which the key expires.
    pub expires_at: u64,
}

/// The key holds a window that has not expired at `now`.
pub open spec fn is_live(w: Option<Window>, now: u64) -> bool {
    w is Some && now < w->Some_0.expires_at
}

/// The store accepts one tracking step: the increment does not overflow, and a
/// fresh window gets a positive expiry that fits.
pub open spec fn step_ok(w: Option<Window>, expires: u64, now: u64) -> bool {
    if is_live(w, now) {
        w->Some_0.count < usize::MAX
    } else {
        0 < expires && now + expires <= u64::MAX
    }
}

/// One indivisible tracking step: set the key to zero with expiry `expires`
/// only if it is absent (or has expired), then increment it.
pub open spec fn step(w: Option<Window>, expires: u64, now: u64) -> Window {
    if is_live(w, now) {
        Window { count: (w->Some_0.count + 1) as usize, expires_at: w->Some_0.expires_at }
    } else {
        Window { count: 1, expires_at: (now + expires) as u64 }
    }
}

/// Seconds that the window `w` has left at `now`.
pub open spec fn ttl_of(w: Window, now: u64) -> int {
    w.expires_at - now
}

/// Performs one tracking step on a key's window: the conditional set, the
/// increment and the time-to-live read, as one step.
pub fn track_window(w: Option<Window>, expires: u64, now: u64) -> (r: Result<(Window, u64), Error>)
    ensures
        r is Ok <==> step_ok(w, expires, now),
        r is Ok ==> r->Ok_0.0 == step(w, expires, now) && r->Ok_0.1 == ttl_of(step(w, expires, now), now),
        r is Ok ==> r->Ok_0.1 > 0,
        r is Err ==> r->Err_0 is Track,
{
    proof {
        reveal_strlit("increment would overflow");
        reveal_strlit("invalid expire time");
    }
    match w {
        Some(cur) if now < cur.expires_at => {
            if cur.count == usize::MAX {
                return Err(Error::Track("increment would overflow".to_owned()));
            }
            let next = Window { count: cur.count + 1, expires_at: cur.expires_at };
            Ok((next, cur.expires_at - now))
        },
        _ => {
            if expires == 0 || now > u64::MAX - expires {
                return Err(Error::Track("invalid expire time".to_owned()));
            }
            let next = Window { count: 1, expires_at: now + expires };
            Ok((next, expires))
        },
    }
}

} // verus!

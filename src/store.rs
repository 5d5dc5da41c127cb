use vstd::prelude::*;

use crate::errors::Error;
use crate::window::{step, step_ok, track_window, ttl_of, Window};

verus! {

/// The window that `m` holds for `key`, if any.
pub open spec fn entry_of(m: Map<Seq<char>, Window>, key: Seq<char>) -> Option<Window> {
    if m.contains_key(key) {
        Some(m[key])
    } else {
        None
    }
}

/// An in-process counter store that runs the tracking protocol on a clock
/// that the caller supplies.
pub struct MemoryStore {
    keys: Vec<String>,
    windows: Vec<Window>,
    model: Ghost<Map<Seq<char>, Window>>,
}

impl View for MemoryStore {
    type V = Map<Seq<char>, Window>;

    closed spec fn view(&self) -> Map<Seq<char>, Window> {
        self.model@
    }
}

impl MemoryStore {
    /// Keys are unique, and each key holds the window stored beside it.
    pub closed spec fn wf(&self) -> bool {
        &&& self.keys.len() == self.windows.len()
        &&& forall|i: int|
            0 <= i < self.keys.len() ==> #[trigger] self.model@.contains_key(self.keys[i]@)
                && self.model@[self.keys[i]@] == self.windows[i]
        &&& forall|k: Seq<char>|
            #[trigger] self.model@.contains_key(k) ==> exists|i: int|
                0 <= i < self.keys.len() && #[trigger] self.keys[i]@ == k
        &&& forall|i: int, j: int|
            0 <= i < j < self.keys.len() ==> self.keys[i]@ != self.keys[j]@
    }

    /// An empty store.
    pub fn new() -> (r: MemoryStore)
        ensures
            r.wf(),
            r@ == Map::<Seq<char>, Window>::empty(),
    {
        MemoryStore { keys: Vec::new(), windows: Vec::new(), model: Ghost(Map::empty()) }
    }

    /// Tracks one request for `key` at epoch second `now`: a key that is absent
    /// or expired starts a window of `expires` seconds, then the count is
    /// incremented. Returns the new count and the seconds the window has left.
    pub fn track(&mut self, key: &str, expires: u64, now: u64) -> (r: Result<(usize, u64), Error>)
        requires
            old(self).wf(),
        ensures
            final(self).wf(),
            ({
                let w = entry_of(old(self)@, key@);
                let n = step(w, expires, now);
                &&& r is Ok <==> step_ok(w, expires, now)
                &&& r is Ok ==> final(self)@ == old(self)@.insert(key@, n) && r->Ok_0.0 == n.count
                    && r->Ok_0.1 == ttl_of(n, now)
                &&& r is Err ==> final(self)@ == old(self)@ && r->Err_0 is Track
            }),
    {
        let k: String = key.to_owned();
        let mut i: usize = 0;
        while i < self.keys.len()
            invariant
                self.wf(),
                *self == *old(self),
                k@ == key@,
                forall|j: int| 0 <= j < i ==> self.keys[j]@ != k@,
            decreases self.keys.len() - i,
        {
            if self.keys[i] == k {
                let cur: Window = self.windows[i];
                match track_window(Some(cur), expires, now) {
                    Ok((next, ttl)) => {
                        self.windows[i] = next;
                        self.model = Ghost(self.model@.insert(k@, next));
                        proof {
                            assert forall|kk: Seq<char>| #[trigger] self.model@.contains_key(kk) implies exists|j: int|
                                0 <= j < self.keys.len() && #[trigger] self.keys[j]@ == kk by {
                                if kk != k@ {
                                    assert(old(self).model@.contains_key(kk));
                                    let j = choose|j: int|
                                        0 <= j < old(self).keys.len() && #[trigger] old(self).keys[j]@ == kk;
                                    assert(self.keys[j]@ == kk);
                                } else {
                                    assert(self.keys[i as int]@ == kk);
                                }
                            }
                            assert forall|j: int| 0 <= j < self.keys.len() implies #[trigger] self.model@.contains_key(self.keys[j]@)
                                && self.model@[self.keys[j]@] == self.windows[j] by {
                                if j != i {
                                    assert(old(self).keys[j]@ != old(self).keys[i as int]@);
                                }
                            }
                        }
                        return Ok((next.count, ttl));
                    },
                    Err(e) => {
                        return Err(e);
                    },
                }
            }
            i += 1;
        }
        proof {
            assert(!self.model@.contains_key(k@));
        }
        match track_window(None, expires, now) {
            Ok((next, ttl)) => {
                let ghost old_keys = self.keys@;
                self.keys.push(k);
                self.windows.push(next);
                self.model = Ghost(self.model@.insert(key@, next));
                proof {
                    assert(self.keys[old_keys.len() as int]@ == key@);
                    assert forall|kk: Seq<char>| #[trigger] self.model@.contains_key(kk) implies exists|j: int|
                        0 <= j < self.keys.len() && #[trigger] self.keys[j]@ == kk by {
                        if kk != key@ {
                            assert(old(self).model@.contains_key(kk));
                            let j = choose|j: int| 0 <= j < old_keys.len() && #[trigger] old(self).keys[j]@ == kk;
                            assert(self.keys[j]@ == kk);
                        } else {
                            assert(self.keys[old_keys.len() as int]@ == kk);
                        }
                    }
                    assert forall|a: int, b: int| 0 <= a < b < self.keys.len() implies self.keys[a]@ != self.keys[b]@ by {
                        if b == old_keys.len() {
                            assert(old(self).keys[a]@ != k@);
                        } else {
                            assert(old(self).keys[a]@ != old(self).keys[b]@);
                        }
                    }
                    assert forall|j: int| 0 <= j < self.keys.len() implies #[trigger] self.model@.contains_key(self.keys[j]@)
                        && self.model@[self.keys[j]@] == self.windows[j] by {
                        if j < old_keys.len() {
                            assert(old(self).keys[j]@ != k@);
                            assert(old(self).model@.contains_key(old(self).keys[j]@));
                        }
                    }
                }
                Ok((next.count, ttl))
            },
            Err(e) => Err(e),
        }
    }
}

} // verus!

//! Fixed-window rate limiting for arbitrary keys.
//!
//! The library holds the counting protocol of a shared counter store, the
//! status snapshot that one counted request produces, and the decision that
//! admits, rejects or bypasses a request.
use vstd::prelude::*;

mod decision;
mod errors;
mod laws;
mod limiter;
mod status;
mod store;
mod window;

pub use decision::{reject_code_spec, verdict_of, verdict_spec, Verdict};
pub use errors::{message_of, Error};
pub use laws::{
    in_one_window, lemma_exceeding_never_forwarded, lemma_first_calls_in_window, lemma_remaining_bounds,
    lemma_reset_in_window, lemma_single_initializer, lemma_store_single_initializer, lemma_window_resets, run,
};
pub use limiter::{agrees, outcome, Builder, DataSource, Limiter};
pub use status::{remaining_of, reset_in_range, Status, MAX_TIMESTAMP, MIN_TIMESTAMP};
pub use store::{entry_of, MemoryStore};
pub use window::{is_live, step, step_ok, track_window, ttl_of, Window};

verus! {

/// Default request limit.
pub const DEFAULT_REQUEST_LIMIT: usize = 5000;

/// Default period, in seconds.
pub const DEFAULT_PERIOD_SECS: u64 = 3600;

} // verus!

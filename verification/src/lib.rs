//! Core engine of a browser chat client for streamed language-model replies:
//! a streaming-response coordinator (throttled flushes, cancellation, usage
//! cost), a keyed session store with a recency index, and a session manager
//! (lifecycle, debounced persistence, ordered navigation).

use vstd::prelude::*;

pub mod manager;
pub mod prompts;
pub mod store;
pub mod stream;
pub mod types;

verus! {

/// Milliseconds between two consecutive flushes of buffered stream content.
pub const FLUSH_INTERVAL_MS: u64 = 200;

/// Quiet period after the last message-list mutation before a store write.
pub const DEBOUNCE_MS: u64 = 2000;

} // verus!

//! The owner-only commands. Both only act on the bot's shared data and its process (flush,
//! clear, disconnect, exit), so their bodies live with the I/O; these are their names.
use vstd::prelude::*;

verus! {

/// The `shutdown` command: flushes the cache, drops the shared clients, disconnects and exits.
pub struct Shutdown;

/// The `clearcache` command: clears the watchlist cache.
pub struct ClearCache;

} // verus!

//! The state that request handlers share.

use vstd::prelude::*;
use crate::memory_persistence::MemoryPersistence;

verus! {

/// Everything the handlers share; the server keeps it behind one
/// reader/writer lock, so that writes to the store are exclusive.
pub struct AppState {
    pub persistence: MemoryPersistence,
}

} // verus!

//! Shared runtime state.
//!
//! Process-wide configuration and registries readable and writable from many
//! worker contexts.  Every worker holds its own handle (the clone-and-share
//! pattern of a reference-counted, internally synchronized object); no worker
//! may assume exclusive ownership, and all mutation is serialized internally
//! so no partial update is ever observable.

use vstd::prelude::*;

verus! {

/// A handle to the process-wide shared runtime state.
pub struct ThreadSafeState {
    permission_flags: u64,
}

impl ThreadSafeState {
    /// The configured permission flags.
    pub closed spec fn flags(self) -> u64 {
        self.permission_flags
    }

    /// A fresh handle carrying the given permission flags.
    pub fn new(permission_flags: u64) -> (s: ThreadSafeState)
        ensures
            s.flags() == permission_flags,
    {
        ThreadSafeState { permission_flags }
    }

    /// Read the permission flags.
    pub fn permission_flags(&self) -> (f: u64)
        ensures
            f == self.flags(),
    {
        self.permission_flags
    }

    /// Another handle to the same shared state.
    pub fn share(&self) -> (s: ThreadSafeState)
        ensures
            s.flags() == self.flags(),
    {
        ThreadSafeState { permission_flags: self.permission_flags }
    }
}

} // verus!

//! The execution environment's exclusive lock.
//!
//! An environment is single threaded and corrupts its state under concurrent
//! use, so every access — operation registration at construction time as
//! well as every drive step — goes through this lock.  The discipline is
//! strictly scoped: acquire, perform one bounded unit of work, release;
//! the lock is never held across a suspension point, so at every scheduling
//! boundary it is free.

use vstd::prelude::*;

verus! {

/// Mutual exclusion over one execution environment.
pub struct EnvLock {
    held: bool,
}

impl EnvLock {
    /// Whether some accessor currently holds the lock.
    pub closed spec fn held(self) -> bool {
        self.held
    }

    /// Whether an acquisition would succeed right now.
    pub open spec fn available(self) -> bool {
        !self.held()
    }

    /// Whether an acquisition would succeed right now.
    pub fn is_available(&self) -> (r: bool)
        ensures
            r == self.available(),
    {
        !self.held
    }

    /// A fresh, free lock.
    pub fn new() -> (l: EnvLock)
        ensures
            !l.held(),
    {
        EnvLock { held: false }
    }

    /// Attempt to take exclusive access.  Succeeds exactly when no other
    /// accessor holds the lock.
    pub fn try_acquire(&mut self) -> (ok: bool)
        ensures
            ok == old(self).available(),
            final(self).held(),
    {
        if self.held {
            false
        } else {
            self.held = true;
            true
        }
    }

    /// Give exclusive access back.
    pub fn release(&mut self)
        requires
            old(self).held(),
        ensures
            !final(self).held(),
    {
        self.held = false;
    }

    /// Exclusion law: while one accessor holds the lock, every further
    /// acquisition fails, so no two lock-guarded units of work — in
    /// particular, no two drive steps on the same worker — can overlap.
    /// Two successful acquisitions are always separated by a release.
    pub proof fn lemma_exclusive(l: EnvLock)
        ensures
            l.held() ==> !l.available(),
    {
    }
}

} // verus!

//! The reentrancy guard: a single boolean lock scoped to one top-level call.
//!
//! Every mutating entry point acquires the guard before touching state and
//! releases it on exit. The strategy router deliberately keeps the guard
//! held across the external strategy interaction, so a malicious strategy
//! that calls back into a mutating entry point is refused with
//! `ReentrancyDetected`.

use vstd::prelude::*;

use crate::errors::SavingsError;

verus! {

/// A non-reentrant lock held for the lifetime of one top-level mutating
/// call, including nested external interactions.
#[derive(Clone, Copy, Debug, PartialEq, Eq, Structural)]
pub struct ReentrancyGuard {
    /// Whether a top-level call currently holds the guard.
    pub locked: bool,
}

/// The guard after an acquisition attempt: locked either way.
pub open spec fn spec_acquire(guard: ReentrancyGuard) -> ReentrancyGuard {
    ReentrancyGuard { locked: true }
}

/// Whether an acquisition attempt succeeds: only while the guard is free.
pub open spec fn spec_acquire_ok(guard: ReentrancyGuard) -> bool {
    !guard.locked
}

/// The guard after a release: free.
pub open spec fn spec_release(guard: ReentrancyGuard) -> ReentrancyGuard {
    ReentrancyGuard { locked: false }
}

impl ReentrancyGuard {
    /// A fresh guard, not held.
    pub fn new() -> (guard: ReentrancyGuard)
        ensures
            !guard.locked,
    {
        ReentrancyGuard { locked: false }
    }

    /// Acquires the guard. Fails with `ReentrancyDetected`, changing
    /// nothing, if the lock is already held; otherwise sets it.
    pub fn acquire(&mut self) -> (r: Result<(), SavingsError>)
        ensures
            old(self).locked ==> r == Err::<(), SavingsError>(SavingsError::ReentrancyDetected)
                && *final(self) == *old(self),
            !old(self).locked ==> r == Ok::<(), SavingsError>(()) && *final(self) == spec_acquire(
                *old(self),
            ),
            r is Ok <==> spec_acquire_ok(*old(self)),
            final(self).locked,
    {
        if self.locked {
            return Err(SavingsError::ReentrancyDetected);
        }
        self.locked = true;
        Ok(())
    }

    /// Releases the guard unconditionally.
    pub fn release(&mut self)
        ensures
            *final(self) == spec_release(*old(self)),
            !final(self).locked,
    {
        self.locked = false;
    }
}

/// Law: a second acquisition while the guard is held is refused, and a
/// release always permits a subsequent acquisition.
pub proof fn lemma_reentrancy_protocol(guard: ReentrancyGuard)
    ensures
        !spec_acquire_ok(spec_acquire(guard)),
        spec_acquire_ok(spec_release(guard)),
{
}

} // verus!

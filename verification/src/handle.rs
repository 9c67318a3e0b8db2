//! The build handle: the small shared state through which the caller
//! observes completion and requests cancellation.
//!
//! The state is a write-once result slot, set by the background task when
//! the build reaches its terminal phase, and an idempotent cancellation
//! signal, settable by any caller at any time.  Keeping the result a single
//! slot makes the illegal state "successful but not finished"
//! unrepresentable.  The front end shares this state across threads by
//! mirroring each field in an atomic; the transitions proved here are the
//! ones it performs.

use vstd::prelude::*;

verus! {

/// Status and cancellation state of one submitted build.
#[derive(Debug, Clone)]
pub struct BuildHandle {
    /// `None` while the build runs; `Some(success)` once it finished.
    pub outcome: Option<bool>,
    /// Whether cancellation has been requested.
    pub cancel_requested: bool,
}

/// The state after a cancellation request: the flag is set, the outcome is
/// untouched.
pub open spec fn with_cancel(h: BuildHandle) -> BuildHandle {
    BuildHandle { cancel_requested: true, ..h }
}

impl BuildHandle {
    /// A fresh handle: not finished, not cancelled.
    pub fn new() -> (h: BuildHandle)
        ensures
            h.outcome is None,
            !h.cancel_requested,
    {
        BuildHandle { outcome: None, cancel_requested: false }
    }

    /// Non-blocking completion check: `Some(success)` once the build
    /// finished, `None` while it runs.
    pub fn try_finished(&self) -> (r: Option<bool>)
        ensures
            r == self.outcome,
    {
        self.outcome
    }

    /// Request cancellation.  Sets the flag and changes nothing else, so
    /// repeated requests leave the state exactly where the first one put
    /// it.
    pub fn cancel(&mut self)
        ensures
            *final(self) == with_cancel(*old(self)),
    {
        self.cancel_requested = true;
    }

    /// Whether cancellation has been requested.
    pub fn is_cancel_requested(&self) -> (r: bool)
        ensures
            r == self.cancel_requested,
    {
        self.cancel_requested
    }

    /// Record the terminal outcome.  The slot is written exactly once: a
    /// finished handle is never finished again, and the flag `finished`
    /// never goes back to false.
    pub fn mark_finished(&mut self, success: bool)
        requires
            old(self).outcome is None,
        ensures
            final(self).outcome == Some(success),
            final(self).cancel_requested == old(self).cancel_requested,
    {
        self.outcome = Some(success);
    }
}

/// Requesting cancellation many times has the same effect as requesting it
/// once: the transition is idempotent, whatever state it is applied to.
pub proof fn lemma_cancel_idempotent(h: BuildHandle)
    ensures
        with_cancel(with_cancel(h)) == with_cancel(h),
{
}

} // verus!

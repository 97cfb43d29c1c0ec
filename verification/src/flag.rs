//! The shared cooperative cancellation flag.
//!
//! One flag exists per session. It is set once — by the keystroke handler on
//! the quit command, or by the owner of the dispatch loop on a timeout — and
//! read by every concurrently running activity: the dispatch loop once per
//! iteration, the image transfer once per chunk, the input handler once per
//! keystroke. Nothing is ever forcibly preempted; everything that observes
//! the flag set winds itself down.
//!
//! Because other tasks may set the flag at any moment, a read says nothing
//! provable about later reads; callers state what holds of every outcome.

use vstd::prelude::*;

verus! {

/// A set-once, multi-reader cancellation signal.
pub struct CancelFlag {
    inner: core::sync::atomic::AtomicBool,
}

impl CancelFlag {
    /// A flag that nothing has set yet.
    pub fn new() -> CancelFlag {
        CancelFlag { inner: core::sync::atomic::AtomicBool::new(false) }
    }

    /// Requests cancellation. The flag never clears again within a run.
    pub fn set(&self) {
        self.inner.store(true, core::sync::atomic::Ordering::SeqCst);
    }

    /// Reads the flag. The result reflects a moment that has already passed:
    /// a concurrent setter may act right after, so callers may rely on it
    /// only for the decision at hand.
    pub fn is_set(&self) -> bool {
        self.inner.load(core::sync::atomic::Ordering::SeqCst)
    }
}

} // verus!

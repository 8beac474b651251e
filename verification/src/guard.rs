//! Exclusive access to the one handler that the edge interrupt and the
//! foreground share.
//!
//! The guard owns the handler. Every operation borrows the guard mutably for
//! its whole duration, so no second access can begin before the first has
//! ended, and a closure that ends early still ends the borrow.

use crate::button::{Gesture, LineLevel};
use crate::handler::{ButtonHandler, Timestamp};
use vstd::prelude::*;

verus! {

/// Owner of the shared handler. All access goes through [`SharedStateGuard::lock`].
pub struct SharedStateGuard {
    handler: ButtonHandler,
}

impl SharedStateGuard {
    /// The handler that the guard holds.
    pub closed spec fn handler(&self) -> ButtonHandler {
        self.handler
    }

    /// A guard that holds `handler`.
    pub fn new(handler: ButtonHandler) -> (guard: SharedStateGuard)
        ensures
            guard.handler() == handler,
    {
        SharedStateGuard { handler }
    }

    /// Runs `f` on the handler with exclusive access and returns what `f`
    /// returns.
    ///
    /// The handler that `f` starts from is the one the guard held before the
    /// call, and the one the guard holds afterwards is the one `f` left:
    /// nothing else reads or writes it in between.
    pub fn lock<R, F: FnOnce(&mut ButtonHandler) -> R>(&mut self, f: F) -> (result: R)
        requires
            forall|h: &mut ButtonHandler| *h == old(self).handler() ==> call_requires(f, (h,)),
        ensures
            exists|h: &mut ButtonHandler|
                *h == old(self).handler() && *final(h) == final(self).handler() && call_ensures(
                    f,
                    (h,),
                    result,
                ),
    {
        f(&mut self.handler)
    }

    /// Takes one debounced edge under the lock: the handler's
    /// [`ButtonHandler::on_edge`] as one critical section.
    pub fn on_edge(&mut self, level: LineLevel, now: Timestamp) -> (gesture: Option<Gesture>)
        ensures
            final(self).handler()@ == old(self).handler()@.after_edge(level, now as int),
            gesture == old(self).handler()@.gesture_on(level, now as int),
    {
        let take = |h: &mut ButtonHandler| -> (g: Option<Gesture>)
            ensures
                final(h)@ == old(h)@.after_edge(level, now as int),
                g == old(h)@.gesture_on(level, now as int),
            { h.on_edge(level, now) };
        self.lock(take)
    }

    /// A copy of the handler, read under the lock, so that the state and the
    /// two readings belong to the same moment.
    pub fn snapshot(&mut self) -> (copy: ButtonHandler)
        ensures
            copy == old(self).handler(),
            final(self).handler() == old(self).handler(),
    {
        let read = |h: &mut ButtonHandler| -> (c: ButtonHandler)
            ensures
                c == *old(h),
                *final(h) == *old(h),
            { *h };
        self.lock(read)
    }
}

} // verus!

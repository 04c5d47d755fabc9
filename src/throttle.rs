use vstd::prelude::*;

use crate::tracker::{ChangeStep, ChangeTracker};

verus! {

/// What the capture function of a throttled stream decides for the
/// current value.
pub enum Capture<U, D> {
    /// Emit this item now.
    Emit(U),
    /// Emit nothing yet; evaluate again once this deferred wait completes
    /// or the value changes, whichever comes first.
    Defer(D),
}

/// Which wait of a throttled stream completed first.
#[derive(Debug, Clone, Copy, PartialEq, Eq)]
pub enum Wakeup {
    /// The deferred wait completed while the value stayed the same.
    Deferred,
    /// The value changed.
    Changed,
    /// Every publisher and observer is gone.
    Orphaned,
}

/// Decisions of a throttled stream: which deferred wait, if any, races
/// against the next change, and whether to evaluate the capture function
/// again after a wakeup.
pub struct Throttle<D> {
    deferred: Option<D>,
}

impl<D> Throttle<D> {
    /// The deferred wait currently raced against the next change.
    pub closed spec fn deferred(&self) -> Option<D> {
        self.deferred
    }

    /// What taking a capture decision hands out and keeps.
    pub open spec fn after_capture<U>(c: Capture<U, D>) -> (Option<U>, Option<D>) {
        match c {
            Capture::Emit(item) => (Some(item), None),
            Capture::Defer(wait) => (None, Some(wait)),
        }
    }

    /// What is kept after `wakeup`, and whether to evaluate again: the
    /// deferred wait is dropped on every wakeup, and evaluation goes on on
    /// every wakeup but the last one.
    pub open spec fn after_wakeup(wakeup: Wakeup) -> (Option<D>, bool) {
        (None, wakeup != Wakeup::Orphaned)
    }

    /// A throttle with no deferred wait.
    pub fn new() -> (r: Self)
        ensures
            r.deferred() is None,
    {
        Throttle { deferred: None }
    }

    /// Takes the decision of the capture function: an item to emit is
    /// handed out, a deferred wait is kept to be raced against the next change.
    pub fn capture<U>(&mut self, decision: Capture<U, D>) -> (r: Option<U>)
        ensures
            (r, final(self).deferred()) == Self::after_capture(decision),
    {
        match decision {
            Capture::Emit(item) => {
                self.deferred = None;
                Some(item)
            },
            Capture::Defer(wait) => {
                self.deferred = Some(wait);
                None
            },
        }
    }

    /// The deferred wait to race against the next change, if any.
    pub fn deferred_mut(&mut self) -> (r: Option<&mut D>)
        ensures
            r is Some <==> old(self).deferred() is Some,
            r is Some ==> *r->Some_0 == old(self).deferred()->Some_0 && final(self).deferred()
                == Some(*final(r->Some_0)),
            r is None ==> final(self).deferred() is None,
    {
        match &mut self.deferred {
            Some(wait) => Some(wait),
            None => None,
        }
    }

    /// Resumes after `wakeup`: drops the deferred wait, which is stale
    /// whichever wait completed, and tells whether to evaluate the capture
    /// function again on the value that is current then.
    pub fn resume(&mut self, wakeup: Wakeup) -> (r: bool)
        ensures
            (final(self).deferred(), r) == Self::after_wakeup(wakeup),
    {
        self.deferred = None;
        match wakeup {
            Wakeup::Orphaned => false,
            _ => true,
        }
    }
}

/// When the capture function defers and the value changes before the
/// deferred wait completes, the deferred wait is abandoned and the capture
/// function is evaluated again, on the value current after the change:
/// the change is reported to a subscriber that had acknowledged `seen`
/// together with the newer version `latest`, which it acknowledges.
pub proof fn lemma_change_abandons_deferral<U, D>(wait: D, seen: u64, latest: u64)
    requires
        latest != seen,
    ensures
        Throttle::<D>::after_capture(Capture::<U, D>::Defer(wait)) == (None::<U>, Some(wait)),
        ChangeTracker::acknowledged(seen).step(false, latest) == (
            ChangeTracker::acknowledged(latest),
            ChangeStep::Ready(()),
        ),
        Throttle::<D>::after_wakeup(Wakeup::Changed) == (None::<D>, true),
{
}

} // verus!

use vstd::prelude::*;

use crate::slot::next_version;
use crate::status::ModifiedStatus;

verus! {

/// Outcome of checking a subscriber for a change without waiting.
#[derive(Debug, PartialEq, Eq)]
pub enum ChangeStep<U> {
    /// A change was observed and consumed; carries what was captured from it.
    Ready(U),
    /// Nothing new yet: wait for the next notification and check again.
    Pending,
    /// Every publisher and observer is gone: no change can ever come.
    Orphaned,
}

impl<U> ChangeStep<U> {
    /// The outcome with its payload left out.
    pub open spec fn outcome(self) -> ChangeStep<()> {
        match self {
            ChangeStep::Ready(_) => ChangeStep::Ready(()),
            ChangeStep::Pending => ChangeStep::Pending,
            ChangeStep::Orphaned => ChangeStep::Orphaned,
        }
    }
}

/// Per-subscriber change bookkeeping.
///
/// `seen` is the version of the shared value that the subscriber has
/// acknowledged last; `changed` forces the next check to report a change
/// even when no newer version exists (after subscribing with intent to
/// receive the current value, after cloning, or on request).
#[derive(Debug, Clone, Copy, PartialEq, Eq)]
pub struct ChangeTracker {
    /// Version acknowledged last.
    pub seen: u64,
    /// Whether the current value counts as unseen regardless of `seen`.
    pub changed: bool,
}

impl ChangeTracker {
    /// The state after acknowledging the value at `version`.
    pub open spec fn acknowledged(version: u64) -> ChangeTracker {
        ChangeTracker { seen: version, changed: false }
    }

    /// This state with the changed flag raised.
    pub open spec fn marked(self) -> ChangeTracker {
        ChangeTracker { seen: self.seen, changed: true }
    }

    /// One check for a change: `closed` tells whether every writer is gone,
    /// `current` is the version currently stored.
    ///
    /// A closed channel is terminal and reported first. Otherwise a raised
    /// flag or a version other than the acknowledged one is a change, which
    /// is consumed by acknowledging `current`. Anything else waits.
    pub open spec fn step(self, closed: bool, current: u64) -> (ChangeTracker, ChangeStep<()>) {
        if closed {
            (self, ChangeStep::Orphaned)
        } else if self.changed || current != self.seen {
            (ChangeTracker::acknowledged(current), ChangeStep::Ready(()))
        } else {
            (self, ChangeStep::Pending)
        }
    }

    /// A tracker that has acknowledged `version` and waits for a newer one.
    pub fn unchanged(version: u64) -> (r: ChangeTracker)
        ensures
            r == ChangeTracker::acknowledged(version),
    {
        ChangeTracker { seen: version, changed: false }
    }

    /// Acknowledges the value at `version`.
    pub fn acknowledge(&mut self, version: u64)
        ensures
            *final(self) == ChangeTracker::acknowledged(version),
    {
        self.seen = version;
        self.changed = false;
    }

    /// Marks the current value as unseen.
    pub fn mark_changed(&mut self)
        ensures
            *final(self) == old(self).marked(),
    {
        self.changed = true;
    }

    /// The state of a copy of this subscriber: same acknowledged version,
    /// with the current value counting as unseen.
    pub fn duplicate(&self) -> (r: ChangeTracker)
        ensures
            r == self.marked(),
    {
        ChangeTracker { seen: self.seen, changed: true }
    }

    /// Performs one check for a change, see [`ChangeTracker::step`].
    pub fn poll(&mut self, closed: bool, current: u64) -> (r: ChangeStep<()>)
        ensures
            (*final(self), r) == old(self).step(closed, current),
    {
        if closed {
            ChangeStep::Orphaned
        } else if self.changed || current != self.seen {
            self.acknowledge(current);
            ChangeStep::Ready(())
        } else {
            ChangeStep::Pending
        }
    }
}

/// A subscriber whose current value counts as unseen (created with
/// intent to receive it, or cloned) reports a change on its first check
/// while a writer exists, whatever version is stored.
pub proof fn lemma_marked_reports_at_once(t: ChangeTracker, current: u64)
    ensures
        t.marked().step(false, current) == (
        ChangeTracker::acknowledged(current),
        ChangeStep::Ready(()),
    ),
{
}

/// A subscriber that has acknowledged `version` (a plain subscription,
/// or any subscriber after reading and acknowledging) keeps waiting while
/// the stored version stays `version`; waiting leaves it unchanged, so no
/// number of checks re-delivers the acknowledged value. It reports a change
/// exactly when another version is stored.
pub proof fn lemma_acknowledged_waits_for_new_version(version: u64, current: u64)
    ensures
        ChangeTracker::acknowledged(version).step(false, version) == (
        ChangeTracker::acknowledged(version),
        ChangeStep::<()>::Pending,
    ),
        (ChangeTracker::acknowledged(version).step(false, current).1 == ChangeStep::<()>::Ready(()))
            <==> current != version,
{
}

/// A write moves the version on whatever value it stores, so every
/// subscriber that had caught up with the previous version reports a change.
pub proof fn lemma_write_always_notifies(version: u64)
    ensures
        ChangeTracker::acknowledged(version).step(false, next_version(version)).1 == ChangeStep::<
            (),
        >::Ready(()),
{
}

/// After an in-place modification that returned `status`, a subscriber
/// that had caught up with the previous version reports a change exactly
/// when the status reports a modification, whether or not the value itself
/// changed: a status reporting none never notifies, one reporting a
/// modification always does.
pub proof fn lemma_modify_notifies_iff_modified<N: ModifiedStatus>(version: u64, status: N)
    ensures
        ChangeTracker::acknowledged(version).step(
            false,
            if status.modified() {
                next_version(version)
            } else {
                version
            },
        ).1 == (if status.modified() {
            ChangeStep::<()>::Ready(())
        } else {
            ChangeStep::<()>::Pending
        }),
{
}

/// Once every writer is gone, a check reports the subscriber as orphaned
/// in every state and leaves the state as it was, so all later checks
/// report it as orphaned too.
pub proof fn lemma_orphaned_is_terminal(t: ChangeTracker, current: u64, later: u64)
    ensures
        t.step(true, current) == (t, ChangeStep::<()>::Orphaned),
        t.step(true, current).0.step(true, later).1 == ChangeStep::<()>::Orphaned,
{
}

} // verus!

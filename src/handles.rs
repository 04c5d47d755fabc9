use vstd::prelude::*;

use tokio::sync::watch;
use tokio::sync::watch::Ref as ReadGuard;

use crate::slot::{next_version, Slot};
use crate::status::ModifiedStatus;
use crate::tracker::{ChangeStep, ChangeTracker};
use crate::transport::{next_send, send_edit};

verus! {

/// A borrowed reference to the shared value.
///
/// Outstanding borrows hold a read lock; writers wait until it is dropped.
#[verifier::reject_recursive_types(T)]
pub struct Ref<'a, T> {
    guard: ReadGuard<'a, Slot<T>>,
    version: u64,
}

impl<'a, T> Ref<'a, T> {
    /// The version of the borrowed value.
    pub closed spec fn spec_version(&self) -> u64 {
        self.version
    }

    fn from_guard(guard: ReadGuard<'a, Slot<T>>) -> (r: Ref<'a, T>) {
        let version = (*guard).version;
        Ref { guard, version }
    }

    /// The version of the borrowed value, read under the same lock.
    pub fn version(&self) -> (r: u64)
        ensures
            r == self.spec_version(),
    {
        self.version
    }

    /// The borrowed value.
    pub fn get(&self) -> (r: &T) {
        &(*self.guard).value
    }
}

impl<'a, T> core::ops::Deref for Ref<'a, T> {
    type Target = T;

    fn deref(&self) -> &T {
        self.get()
    }
}

impl<'a, T> AsRef<T> for Ref<'a, T> {
    fn as_ref(&self) -> &T {
        self.get()
    }
}

// Each edit below runs under the channel's write lock and returns, beside
// its result, whether the channel is to wake the subscribers: exactly when
// the slot's version moved.

/// The edit that stores `value`; it always notifies.
fn store_edit<T>(slot: &mut Slot<T>, value: T) -> (r: ((), bool))
    ensures
        final(slot).value == value,
        final(slot).version == next_version(old(slot).version),
        r.1,
        r.1 == (final(slot).version != old(slot).version),
{
    slot.store(value);
    ((), true)
}

/// The edit that swaps in `value`; it always notifies.
fn swap_edit<T>(slot: &mut Slot<T>, value: T) -> (r: (T, bool))
    ensures
        r.0 == old(slot).value,
        final(slot).value == value,
        final(slot).version == next_version(old(slot).version),
        r.1,
        r.1 == (final(slot).version != old(slot).version),
{
    (slot.swap(value), true)
}

/// The edit that only marks the value as changed; it always notifies.
fn touch_edit<T>(slot: &mut Slot<T>, unit: ()) -> (r: ((), bool))
    ensures
        final(slot).value == old(slot).value,
        final(slot).version == next_version(old(slot).version),
        r.1,
        r.1 == (final(slot).version != old(slot).version),
{
    slot.touch();
    ((), true)
}

/// The edit that runs `modify`; it notifies exactly when the version moved.
fn modify_edit<T, M, N>(slot: &mut Slot<T>, modify: M) -> (r: (N, bool)) where
    M: FnOnce(&mut T) -> N,
    N: ModifiedStatus,

    requires
        forall|v: &mut T| modify.requires((v,)),
    ensures
        exists|v: &mut T| modify.ensures((v,), r.0),
        r.1 == r.0.modified(),
        final(slot).version == if r.1 {
            next_version(old(slot).version)
        } else {
            old(slot).version
        },
        r.1 == (final(slot).version != old(slot).version),
{
    slot.modify(modify)
}

/// Publisher of a shared value.
///
/// Reads and writes the shared value and notifies subscribers on write.
/// All write methods take `&self`: the value lives behind a lock, so a
/// publisher can be shared between tasks and threads without further
/// synchronization.
#[verifier::reject_recursive_types(T)]
pub struct Publisher<T> {
    tx: watch::Sender<Slot<T>>,
}

impl<T> Publisher<T> {
    /// Creates a publisher of `initial_value`, without subscribers.
    pub fn new(initial_value: T) -> (r: Self) {
        Publisher { tx: watch::Sender::new(Slot::new(initial_value)) }
    }

    /// Creates an [`Observer`] for read-only access.
    pub fn observe(&self) -> (r: Observer<T>) {
        Observer { tx: self.tx.clone() }
    }

    /// Subscribes to changes. The current value counts as seen.
    pub fn subscribe(&self) -> (r: Subscriber<T>)
        ensures
            exists|version: u64| r.tracker() == ChangeTracker::acknowledged(version),
    {
        Subscriber::new(self.tx.subscribe())
    }

    /// Subscribes to changes. The current value counts as unseen, so the
    /// first wait for a change completes at once.
    pub fn subscribe_changed(&self) -> (r: Subscriber<T>)
        ensures
            exists|version: u64| r.tracker() == ChangeTracker::acknowledged(version).marked(),
    {
        let mut subscriber = self.subscribe();
        subscriber.mark_changed();
        subscriber
    }

    /// Whether at least one subscriber is connected.
    pub fn has_subscribers(&self) -> (r: bool) {
        !self.tx.is_closed()
    }

    /// Borrows the current value.
    ///
    /// Reading again, or writing, while holding the borrow might deadlock.
    pub fn read(&self) -> (r: Ref<'_, T>) {
        Ref::from_guard(self.tx.borrow())
    }

    /// Overwrites the current value and notifies all subscribers,
    /// whether or not the new value equals the old one.
    pub fn write(&self, new_value: T) {
        send_edit(&self.tx, store_edit, new_value)
    }

    /// Replaces the current value, notifies all subscribers, whether or not
    /// the new value equals the old one, and returns the previous value.
    pub fn replace(&self, new_value: T) -> (r: T) {
        send_edit(&self.tx, swap_edit, new_value)
    }

    /// Modifies the current value in place under the write lock and
    /// notifies subscribers exactly when the returned status reports a
    /// modification, whether or not the value changed. The status is
    /// returned.
    ///
    /// The edit run under the lock asks the status once and moves the
    /// slot's version, and has the channel notify, exactly when it reports
    /// a modification (see `Slot::modify`).
    ///
    /// `modify` must not access this shared value itself.
    pub fn modify<M, N>(&self, modify: M) -> (r: N) where
        M: FnOnce(&mut T) -> N,
        N: ModifiedStatus,

        requires
            forall|v: &mut T| modify.requires((v,)),
        ensures
            exists|v: &mut T| modify.ensures((v,), r),
    {
        send_edit(&self.tx, modify_edit, modify)
    }

    /// Marks the current value as changed for all subscribers, without
    /// touching it.
    pub fn set_modified(&self) {
        send_edit(&self.tx, touch_edit, ())
    }
}

impl<T> Clone for Publisher<T> {
    fn clone(&self) -> (r: Self) {
        Publisher { tx: self.tx.clone() }
    }
}

impl<T: Default> Default for Publisher<T> {
    fn default() -> (r: Self) {
        Publisher::new(T::default())
    }
}

/// Observer of a shared value: a lightweight, cloneable, read-only
/// counterpart of [`Publisher`].
#[verifier::reject_recursive_types(T)]
pub struct Observer<T> {
    tx: watch::Sender<Slot<T>>,
}

impl<T> Observer<T> {
    /// Borrows the current value.
    ///
    /// Reading again while holding the borrow might deadlock.
    pub fn read(&self) -> (r: Ref<'_, T>) {
        Ref::from_guard(self.tx.borrow())
    }

    /// Subscribes to changes. The current value counts as seen.
    pub fn subscribe(&self) -> (r: Subscriber<T>)
        ensures
            exists|version: u64| r.tracker() == ChangeTracker::acknowledged(version),
    {
        Subscriber::new(self.tx.subscribe())
    }

    /// Subscribes to changes. The current value counts as unseen, so the
    /// first wait for a change completes at once.
    pub fn subscribe_changed(&self) -> (r: Subscriber<T>)
        ensures
            exists|version: u64| r.tracker() == ChangeTracker::acknowledged(version).marked(),
    {
        let mut subscriber = self.subscribe();
        subscriber.mark_changed();
        subscriber
    }
}

impl<T> Clone for Observer<T> {
    fn clone(&self) -> (r: Self) {
        Observer { tx: self.tx.clone() }
    }
}

/// Subscriber of a shared value.
///
/// Reads the shared value and learns about changes. Whether the current
/// value counts as changed is tracked by the subscriber itself, see
/// [`ChangeTracker`]: [`mark_changed`](Self::mark_changed) marks it as
/// unseen, [`read_ack`](Self::read_ack) as seen.
#[verifier::reject_recursive_types(T)]
pub struct Subscriber<T> {
    rx: watch::Receiver<Slot<T>>,
    tracker: ChangeTracker,
}

impl<T> Subscriber<T> {
    /// The change bookkeeping of this subscriber.
    pub closed spec fn tracker(&self) -> ChangeTracker {
        self.tracker
    }

    fn new(mut rx: watch::Receiver<Slot<T>>) -> (r: Self)
        ensures
            exists|version: u64| r.tracker() == ChangeTracker::acknowledged(version),
    {
        let version = (*rx.borrow_and_update()).version;
        Subscriber { rx, tracker: ChangeTracker::unchanged(version) }
    }

    /// Borrows the current value without acknowledging it.
    ///
    /// Reading again while holding the borrow might deadlock.
    pub fn read(&self) -> (r: Ref<'_, T>) {
        Ref::from_guard(self.rx.borrow())
    }

    /// Borrows and acknowledges the current value: from now on it counts
    /// as seen.
    ///
    /// Reading again while holding the borrow might deadlock.
    pub fn read_ack(&mut self) -> (r: Ref<'_, T>)
        ensures
            final(self).tracker() == ChangeTracker::acknowledged(r.spec_version()),
    {
        let guard = self.rx.borrow_and_update();
        let version = (*guard).version;
        self.tracker.acknowledge(version);
        Ref { guard, version }
    }

    /// Marks the current value as unseen.
    pub fn mark_changed(&mut self)
        ensures
            final(self).tracker() == old(self).tracker().marked(),
    {
        self.tracker.mark_changed();
    }

    /// Checks for a change without waiting, consuming it if there is one.
    ///
    /// `Orphaned` once every publisher and observer is gone; `Ready` if the
    /// current value is unseen, which it then no longer is; `Pending`
    /// otherwise, in which case [`next_change`](Self::next_change) completes
    /// once checking again is worthwhile.
    pub fn poll_changed(&mut self) -> (r: ChangeStep<()>)
        ensures
            exists|closed: bool, current: u64|
                old(self).tracker().step(closed, current) == (final(self).tracker(), r),
    {
        let closed = self.rx.has_changed().is_err();
        let current = (*self.rx.borrow_and_update()).version;
        let r = self.tracker.poll(closed, current);
        assert(old(self).tracker().step(closed, current) == (self.tracker(), r));
        r
    }

    /// Checks for a change without waiting; if there is one, acknowledges
    /// the current value and captures it with `map_fn` while it is borrowed.
    ///
    /// The outcome is that of [`poll_changed`](Self::poll_changed); on
    /// `Ready` the subscriber has acknowledged the value it captured.
    pub fn poll_map_changed<U, F>(&mut self, map_fn: F) -> (r: ChangeStep<U>) where
        F: FnOnce(&T) -> U,

        requires
            forall|v: &T| map_fn.requires((v,)),
        ensures
            exists|closed: bool, current: u64|
                old(self).tracker().step(closed, current).1 == r.outcome(),
            r.outcome() != ChangeStep::<()>::Ready(()) ==> final(self).tracker() == old(
                self,
            ).tracker(),
            match r {
                ChangeStep::Ready(u) => (exists|version: u64|
                    final(self).tracker() == ChangeTracker::acknowledged(version)) && exists|v: &T|
                    map_fn.ensures((v,), u),
                _ => true,
            },
    {
        let step = self.poll_changed();
        match step {
            ChangeStep::Ready(()) => {
                let captured = self.map_ack(map_fn);
                let r = ChangeStep::Ready(captured);
                proof {
                    let v = choose|v: &T| map_fn.ensures((v,), captured);
                    assert(map_fn.ensures((v,), r->Ready_0));
                }
                r
            },
            ChangeStep::Pending => ChangeStep::Pending,
            ChangeStep::Orphaned => ChangeStep::Orphaned,
        }
    }

    /// Acknowledges the current value and captures it with `map_fn` while
    /// it is borrowed.
    pub fn map_ack<U, F>(&mut self, map_fn: F) -> (r: U) where
        F: FnOnce(&T) -> U,

        requires
            forall|v: &T| map_fn.requires((v,)),
        ensures
            exists|version: u64| final(self).tracker() == ChangeTracker::acknowledged(version),
            exists|v: &T| map_fn.ensures((v,), r),
    {
        let current = self.read_ack();
        let value = current.get();
        let r = map_fn(value);
        proof {
            assert(map_fn.ensures((value,), r));
        }
        r
    }

    /// A future that completes once checking for a change again is
    /// worthwhile: after a notifying write since the last check, or once
    /// every publisher and observer is gone. It may also complete early.
    pub fn next_change(&mut self) -> (r: impl core::future::Future<
        Output = Result<(), watch::error::RecvError>,
    > + '_) {
        next_send(&mut self.rx)
    }
}

impl<T> Clone for Subscriber<T> {
    /// A copy of this subscriber for which the current value counts as unseen.
    fn clone(&self) -> (r: Self)
        ensures
            r.tracker() == self.tracker().marked(),
    {
        Subscriber { rx: self.rx.clone(), tracker: self.tracker.duplicate() }
    }
}

} // verus!

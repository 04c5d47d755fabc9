//! The single-slot broadcast channel underneath the handles: tokio's
//! `watch` channel, carrying a [`Slot`]. The channel locks the slot,
//! wakes waiting receivers and counts senders; every decision about
//! versions and changes is made by the verified code around it.

use vstd::prelude::*;

use tokio::sync::watch;
use tokio::sync::watch::Ref as ReadGuard;

use crate::slot::Slot;

verus! {

#[verifier::external_type_specification]
#[verifier::external_body]
#[verifier::reject_recursive_types(T)]
pub struct ExSender<T>(watch::Sender<T>);

#[verifier::external_type_specification]
#[verifier::external_body]
#[verifier::reject_recursive_types(T)]
pub struct ExReceiver<T>(watch::Receiver<T>);

#[verifier::external_type_specification]
#[verifier::external_body]
#[verifier::reject_recursive_types(T)]
pub struct ExReadGuard<'a, T>(ReadGuard<'a, T>);

#[verifier::external_type_specification]
#[verifier::external_body]
pub struct ExRecvError(watch::error::RecvError);

/// Relies on `watch::Sender::new`: creates a channel holding `init`.
pub assume_specification<T>[ watch::Sender::<T>::new ](init: T) -> watch::Sender<T>;

/// Relies on `Clone for watch::Sender`: another sender of the same channel.
pub assume_specification<T>[ <watch::Sender<T> as Clone>::clone ](
    tx: &watch::Sender<T>,
) -> watch::Sender<T>;

/// Relies on `watch::Sender::subscribe`: a new receiver of the channel.
pub assume_specification<T>[ watch::Sender::<T>::subscribe ](
    tx: &watch::Sender<T>,
) -> watch::Receiver<T>;

/// Relies on `watch::Sender::is_closed`: whether no receiver is left.
pub assume_specification<T>[ watch::Sender::<T>::is_closed ](tx: &watch::Sender<T>) -> bool;

/// Relies on `watch::Sender::borrow`: read-locks the stored value.
pub assume_specification<'a, T>[ watch::Sender::<T>::borrow ](
    tx: &'a watch::Sender<T>,
) -> ReadGuard<'a, T>;

/// Relies on `Clone for watch::Receiver`: another receiver of the same channel.
pub assume_specification<T>[ <watch::Receiver<T> as Clone>::clone ](
    rx: &watch::Receiver<T>,
) -> watch::Receiver<T>;

/// Relies on `watch::Receiver::borrow`: read-locks the stored value.
pub assume_specification<'a, T>[ watch::Receiver::<T>::borrow ](
    rx: &'a watch::Receiver<T>,
) -> ReadGuard<'a, T>;

/// Relies on `watch::Receiver::borrow_and_update`: read-locks the stored
/// value and records, under that lock, that this receiver has seen it, so
/// that a later `changed` waits for a send made after this borrow.
pub assume_specification<'a, T>[ watch::Receiver::<T>::borrow_and_update ](
    rx: &'a mut watch::Receiver<T>,
) -> ReadGuard<'a, T>;

/// Relies on `watch::Receiver::has_changed`: an error exactly when every
/// sender has been dropped.
pub assume_specification<T>[ watch::Receiver::<T>::has_changed ](
    rx: &watch::Receiver<T>,
) -> Result<bool, watch::error::RecvError>;

/// Relies on `Deref for watch::Ref`: the value behind the read lock.
pub assume_specification<'a, 'b, T>[ <ReadGuard<'a, T> as core::ops::Deref>::deref ](
    r: &'b ReadGuard<'a, T>,
) -> &'b T;

/// Relies on `watch::Sender::send_if_modified`: it runs `edit(slot, arg)`
/// once on the stored slot under the write lock, wakes the receivers exactly
/// when the flag that `edit` returns is `true`, and releases the lock even
/// when `edit` panics. The first part of what `edit` returns is handed back.
#[verifier::external_body]
pub(crate) fn send_edit<T, A, N, F>(tx: &watch::Sender<Slot<T>>, edit: F, arg: A) -> (r: N) where
    F: FnOnce(&mut Slot<T>, A) -> (N, bool),

    requires
        forall|s: &mut Slot<T>| edit.requires((s, arg)),
    ensures
        exists|s: &mut Slot<T>, notify: bool| edit.ensures((s, arg), (r, notify)),
{
    let mut out = None;
    tx.send_if_modified(|slot| {
        let (n, notify) = edit(slot, arg);
        out = Some(n);
        notify
    });
    out.unwrap()
}

/// Relies on `watch::Receiver::changed`: a future that completes once a
/// send happened after this receiver last saw the value, or once every
/// sender is gone.
#[verifier::external_body]
pub(crate) fn next_send<'a, T>(rx: &'a mut watch::Receiver<T>) -> (r: impl core::future::Future<
    Output = Result<(), watch::error::RecvError>,
> + 'a) {
    rx.changed()
}

} // verus!

use vstd::prelude::*;

verus! {

/// Result of an in-place modification of the shared value.
///
/// Allows a modification to hand data out of the locking scope while
/// still telling the publisher whether subscribers must be notified.
/// If nothing needs to be captured, `bool` serves as the status itself.
pub trait ModifiedStatus {
    /// Whether this status reports a modification that subscribers must be
    /// notified of.
    ///
    /// Verified code never assumes this default of an arbitrary status; an
    /// implementation verified together with this library that reports
    /// anything else states its own.
    open spec fn modified(&self) -> bool {
        true
    }

    /// Returns `true` if the shared value has been modified and
    /// subscribers need to be notified, `false` if it is unchanged.
    fn is_modified(&self) -> (r: bool)
        ensures
            r == self.modified(),
    ;
}

impl ModifiedStatus for bool {
    open spec fn modified(&self) -> bool {
        *self
    }

    fn is_modified(&self) -> (r: bool) {
        *self
    }
}

/// Indicates that every publisher and observer of the shared value
/// has been dropped, so no further change can ever be observed.
#[derive(Debug, Clone, Copy, PartialEq, Eq)]
pub struct OrphanedSubscriberError;

impl OrphanedSubscriberError {
    /// Human readable description of the error.
    pub fn message(&self) -> (r: &'static str) {
        "disconnected from publisher"
    }
}

/// Continuation after handling a change notification.
#[derive(Debug, Clone, Copy, PartialEq, Eq)]
pub enum OnChanged {
    /// Continue listening for changes.
    Continue,
    /// Abort listening for changes.
    Abort,
}

} // verus!

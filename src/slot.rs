use vstd::prelude::*;

use crate::status::ModifiedStatus;

verus! {

/// The version that follows `version`; it wraps around after `u64::MAX`.
pub open spec fn next_version(version: u64) -> u64 {
    if version == u64::MAX {
        0
    } else {
        (version + 1) as u64
    }
}

/// The shared value together with the version of its last notifying write.
///
/// Every write, replacement or notifying modification moves the version on,
/// whether or not the new value equals the old one; a silent modification
/// keeps it. Subscribers compare versions to decide whether they missed a change.
pub struct Slot<T> {
    /// The current value.
    pub value: T,
    /// The version of the current value.
    pub version: u64,
}

impl<T> Slot<T> {
    /// A slot holding `value` at the initial version `0`.
    pub fn new(value: T) -> (r: Self)
        ensures
            r.value == value,
            r.version == 0,
    {
        Slot { value, version: 0 }
    }

    /// Moves the version on without touching the value.
    pub fn touch(&mut self)
        ensures
            final(self).value == old(self).value,
            final(self).version == next_version(old(self).version),
    {
        self.version = self.version.wrapping_add(1);
    }

    /// Overwrites the value and moves the version on.
    pub fn store(&mut self, value: T)
        ensures
            final(self).value == value,
            final(self).version == next_version(old(self).version),
    {
        self.value = value;
        self.touch();
    }

    /// Overwrites the value, moves the version on and returns the previous value.
    pub fn swap(&mut self, value: T) -> (r: T)
        ensures
            r == old(self).value,
            final(self).value == value,
            final(self).version == next_version(old(self).version),
    {
        let mut previous = value;
        core::mem::swap(&mut self.value, &mut previous);
        self.touch();
        previous
    }

    /// Runs `modify` on the value and asks the returned status whether it
    /// modified the value. Returns the status and that answer; the version
    /// moves on exactly when the status reports a modification, whether or
    /// not the value itself changed.
    pub fn modify<M, N>(&mut self, modify: M) -> (r: (N, bool))
        where
            M: FnOnce(&mut T) -> N,
            N: ModifiedStatus,
        requires
            forall|v: &mut T| modify.requires((v,)),
        ensures
            exists|v: &mut T|
                *v == old(self).value && modify.ensures((v,), r.0) && final(self).value == *final(v),
            r.1 == r.0.modified(),
            final(self).version == if r.1 {
                next_version(old(self).version)
            } else {
                old(self).version
            },
    {
        let status = modify(&mut self.value);
        let modified = status.is_modified();
        if modified {
            self.touch();
        }
        let r = (status, modified);
        proof {
            let v = choose|v: &mut T|
                *v == old(self).value && modify.ensures((v,), status) && self.value == *final(v);
            assert(modify.ensures((v,), r.0));
        }
        r
    }
}

} // verus!

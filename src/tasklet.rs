use vstd::prelude::*;

use crate::status::OnChanged;
use crate::tracker::ChangeStep;

verus! {

/// What a tasklet does next.
#[derive(Debug, Clone, Copy, PartialEq, Eq)]
pub enum Next {
    /// Check for a change again right away.
    Check,
    /// Wait for the next notification, then check again.
    Wait,
    /// Hand the captured value to the consumer.
    Deliver,
    /// Stop: the consumer aborted or the publisher is gone.
    Stop,
}

/// The next move of a tasklet that hands each changed value to a consumer
/// under the lock, given the outcome of checking for a change, which
/// carries the consumer's decision on `Ready`.
pub open spec fn after_observed(step: ChangeStep<OnChanged>) -> Next {
    match step {
        ChangeStep::Ready(OnChanged::Continue) => Next::Check,
        ChangeStep::Ready(OnChanged::Abort) => Next::Stop,
        ChangeStep::Pending => Next::Wait,
        ChangeStep::Orphaned => Next::Stop,
    }
}

/// The next move of a tasklet that captures changed values, given the
/// outcome of checking for a change, which carries on `Ready` whether the
/// capture saw a change that matters.
pub open spec fn after_captured(step: ChangeStep<bool>) -> Next {
    match step {
        ChangeStep::Ready(true) => Next::Deliver,
        ChangeStep::Ready(false) => Next::Check,
        ChangeStep::Pending => Next::Wait,
        ChangeStep::Orphaned => Next::Stop,
    }
}

/// The next move after the consumer has handled a delivered value.
pub open spec fn after_delivered(on_changed: OnChanged) -> Next {
    match on_changed {
        OnChanged::Continue => Next::Check,
        OnChanged::Abort => Next::Stop,
    }
}

/// Decides the next move of an observing tasklet, see [`after_observed`].
pub fn observed(step: ChangeStep<OnChanged>) -> (r: Next)
    ensures
        r == after_observed(step),
{
    match step {
        ChangeStep::Ready(OnChanged::Continue) => Next::Check,
        ChangeStep::Ready(OnChanged::Abort) => Next::Stop,
        ChangeStep::Pending => Next::Wait,
        ChangeStep::Orphaned => Next::Stop,
    }
}

/// Decides the next move of a capturing tasklet, see [`after_captured`].
pub fn captured(step: ChangeStep<bool>) -> (r: Next)
    ensures
        r == after_captured(step),
{
    match step {
        ChangeStep::Ready(true) => Next::Deliver,
        ChangeStep::Ready(false) => Next::Check,
        ChangeStep::Pending => Next::Wait,
        ChangeStep::Orphaned => Next::Stop,
    }
}

/// Decides the next move after a delivery, see [`after_delivered`].
pub fn delivered(on_changed: OnChanged) -> (r: Next)
    ensures
        r == after_delivered(on_changed),
{
    match on_changed {
        OnChanged::Continue => Next::Check,
        OnChanged::Abort => Next::Stop,
    }
}

} // verus!

//! Discrete observables for asynchronous functional reactive programming.
//!
//! A [`Publisher`] holds a single shared value; any number of [`Subscriber`]s
//! read it and learn about changes. Only the latest value matters: stale
//! intermediate values are never queued.
//!
//! - [`slot`]: the shared value and its version counter.
//! - [`tracker`]: per-subscriber bookkeeping of what counts as a change.
//! - [`handles`]: publisher, observer, subscriber and read guard.
//! - [`tasklet`] and [`throttle`]: the decisions of long-running observers
//!   and of throttled streams.

pub mod handles;
pub mod slot;
pub mod status;
pub mod tasklet;
pub mod throttle;
pub mod tracker;
mod transport;

pub use handles::{Observer, Publisher, Ref, Subscriber};
pub use slot::Slot;
pub use status::{ModifiedStatus, OnChanged, OrphanedSubscriberError};
pub use throttle::{Capture, Throttle, Wakeup};
pub use tracker::{ChangeStep, ChangeTracker};

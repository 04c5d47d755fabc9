use discro::tasklet::{captured, delivered, observed, Next};
use discro::{Capture, ChangeStep, ChangeTracker, OnChanged, Slot, Throttle, Wakeup};

#[test]
fn slot_store_moves_the_version_even_for_an_equal_value() {
    let mut slot = Slot::new(5u8);
    assert_eq!(slot.version, 0);
    slot.store(5);
    assert_eq!(slot.value, 5);
    assert_eq!(slot.version, 1);
    slot.store(6);
    assert_eq!(slot.value, 6);
    assert_eq!(slot.version, 2);
}

#[test]
fn slot_swap_returns_the_previous_value() {
    let mut slot = Slot::new(String::from("a"));
    let previous = slot.swap(String::from("b"));
    assert_eq!(previous, "a");
    assert_eq!(slot.value, "b");
    assert_eq!(slot.version, 1);
}

#[test]
fn slot_touch_keeps_the_value() {
    let mut slot = Slot::new(vec![1u8]);
    slot.touch();
    assert_eq!(slot.value, vec![1u8]);
    assert_eq!(slot.version, 1);
}

#[test]
fn slot_version_wraps_around() {
    let mut slot = Slot { value: 0u8, version: u64::MAX };
    slot.touch();
    assert_eq!(slot.version, 0);
}

#[test]
fn slot_modify_moves_the_version_only_when_modified() {
    let mut slot = Slot::new(1i32);
    let (status, modified) = slot.modify(|v| {
        *v = 2;
        false
    });
    assert!(!status);
    assert!(!modified);
    assert_eq!(slot.value, 2);
    assert_eq!(slot.version, 0);
    let (status, modified) = slot.modify(|_| true);
    assert!(status);
    assert!(modified);
    assert_eq!(slot.value, 2);
    assert_eq!(slot.version, 1);
}

#[test]
fn tracker_reports_orphaned_before_anything_else() {
    let mut t = ChangeTracker { seen: 3, changed: true };
    assert_eq!(t.poll(true, 4), ChangeStep::Orphaned);
    assert_eq!(t, ChangeTracker { seen: 3, changed: true });
}

#[test]
fn tracker_flag_reports_once() {
    let mut t = ChangeTracker::unchanged(7);
    t.mark_changed();
    assert_eq!(t, ChangeTracker { seen: 7, changed: true });
    assert_eq!(t.poll(false, 7), ChangeStep::Ready(()));
    assert_eq!(t, ChangeTracker { seen: 7, changed: false });
    assert_eq!(t.poll(false, 7), ChangeStep::Pending);
}

#[test]
fn tracker_new_version_reports_and_is_acknowledged() {
    let mut t = ChangeTracker::unchanged(1);
    assert_eq!(t.poll(false, 1), ChangeStep::Pending);
    assert_eq!(t.poll(false, 2), ChangeStep::Ready(()));
    assert_eq!(t.seen, 2);
    assert_eq!(t.poll(false, 2), ChangeStep::Pending);
    t.acknowledge(9);
    assert_eq!(t, ChangeTracker { seen: 9, changed: false });
}

#[test]
fn tracker_duplicate_is_marked() {
    let t = ChangeTracker::unchanged(4);
    assert_eq!(t.duplicate(), ChangeTracker { seen: 4, changed: true });
}

#[test]
fn tracker_sees_a_write_of_equal_value() {
    let mut slot = Slot::new(0u8);
    let mut t = ChangeTracker::unchanged(slot.version);
    slot.store(0);
    assert_eq!(t.poll(false, slot.version), ChangeStep::Ready(()));
}

#[test]
fn throttle_emits_or_keeps_the_deferral() {
    let mut throttle: Throttle<u32> = Throttle::new();
    assert!(throttle.deferred_mut().is_none());
    assert_eq!(throttle.capture(Capture::Emit("now")), Some("now"));
    assert!(throttle.deferred_mut().is_none());
    assert_eq!(throttle.capture(Capture::<&str, u32>::Defer(30)), None);
    assert_eq!(throttle.deferred_mut().copied(), Some(30));
}

#[test]
fn throttle_abandons_the_deferral_when_the_value_changes() {
    let mut throttle: Throttle<u32> = Throttle::new();
    assert_eq!(throttle.capture(Capture::<&str, u32>::Defer(30)), None);
    assert!(throttle.resume(Wakeup::Changed));
    assert!(throttle.deferred_mut().is_none());
}

#[test]
fn throttle_reevaluates_after_the_deferral_and_stops_when_orphaned() {
    let mut throttle: Throttle<u32> = Throttle::new();
    assert_eq!(throttle.capture(Capture::<&str, u32>::Defer(30)), None);
    assert!(throttle.resume(Wakeup::Deferred));
    assert!(throttle.deferred_mut().is_none());
    assert_eq!(throttle.capture(Capture::<&str, u32>::Defer(40)), None);
    assert!(!throttle.resume(Wakeup::Orphaned));
    assert!(throttle.deferred_mut().is_none());
}

#[test]
fn throttled_change_reevaluates_the_latest_value() {
    let tx = discro::Publisher::new(1u32);
    let mut rx = tx.subscribe_changed();
    let mut throttle: Throttle<&str> = Throttle::new();
    let capture = |v: &u32| if *v < 3 { Capture::Defer("timer") } else { Capture::Emit(*v) };
    assert_eq!(throttle.capture(rx.map_ack(capture)), None);
    tx.write(2);
    tx.write(3);
    // The change arrives before the timer.
    assert_eq!(rx.poll_changed(), ChangeStep::Ready(()));
    assert!(throttle.resume(Wakeup::Changed));
    assert!(throttle.deferred_mut().is_none());
    assert_eq!(throttle.capture(rx.map_ack(capture)), Some(3));
}

#[test]
fn observing_tasklet_decisions() {
    assert_eq!(observed(ChangeStep::Ready(OnChanged::Continue)), Next::Check);
    assert_eq!(observed(ChangeStep::Ready(OnChanged::Abort)), Next::Stop);
    assert_eq!(observed(ChangeStep::Pending), Next::Wait);
    assert_eq!(observed(ChangeStep::Orphaned), Next::Stop);
}

#[test]
fn capturing_tasklet_decisions() {
    assert_eq!(captured(ChangeStep::Ready(true)), Next::Deliver);
    assert_eq!(captured(ChangeStep::Ready(false)), Next::Check);
    assert_eq!(captured(ChangeStep::Pending), Next::Wait);
    assert_eq!(captured(ChangeStep::Orphaned), Next::Stop);
    assert_eq!(delivered(OnChanged::Continue), Next::Check);
    assert_eq!(delivered(OnChanged::Abort), Next::Stop);
}

use vehicle_signals::receiver::{initialize_receiver, Receiver, TimeSource};

#[test]
fn watchdog_expired_before_initialization() {
    let receiver = Receiver::new();
    assert!(receiver.has_watchdog_expired());
}

#[test]
fn watchdog_expired_until_first_update_edge() {
    // A time source is installed but no update edge was ever recorded:
    // the signal counts as stale from the start.
    let mut receiver = initialize_receiver(TimeSource::new());
    assert!(receiver.has_watchdog_expired());
    receiver.service_interrupt();
    assert!(receiver.has_watchdog_expired());
    // The first recorded edge opens the window.
    receiver.update_edge();
    receiver.service_interrupt();
    assert!(!receiver.has_watchdog_expired());
}

#[test]
fn watchdog_expires_without_any_update_edge() {
    let mut receiver = initialize_receiver(TimeSource::new());
    receiver.advance_time(200_000);
    assert!(receiver.has_watchdog_expired());
}

#[test]
fn watchdog_window_boundary() {
    let mut receiver = initialize_receiver(TimeSource::new());
    receiver.advance_time(5_000);
    receiver.update_edge();
    receiver.service_interrupt();
    // Exactly the timeout after the edge: still fresh.
    receiver.advance_time(100_000);
    assert!(!receiver.has_watchdog_expired());
    // One tick more: stale.
    receiver.advance_time(1);
    assert!(receiver.has_watchdog_expired());
}

#[test]
fn watchdog_refreshed_by_second_edge() {
    let mut receiver = initialize_receiver(TimeSource::new());
    receiver.update_edge();
    receiver.service_interrupt();
    receiver.advance_time(90_000);
    assert!(!receiver.has_watchdog_expired());
    receiver.update_edge();
    receiver.service_interrupt();
    receiver.advance_time(90_000);
    assert!(!receiver.has_watchdog_expired());
    receiver.advance_time(20_000);
    assert!(receiver.has_watchdog_expired());
}

#[test]
fn handoff_happens_exactly_once() {
    let mut receiver = initialize_receiver(TimeSource::new());
    assert!(!receiver.global_slot_empty());
    receiver.service_interrupt();
    assert!(receiver.global_slot_empty());
    // Later events and services never refill the slot.
    receiver.steering_edge(100);
    receiver.service_interrupt();
    receiver.update_edge();
    receiver.throttle_edge(7);
    receiver.service_interrupt();
    assert!(receiver.global_slot_empty());
}

#[test]
fn pulse_widths_published_per_edge() {
    let mut receiver = initialize_receiver(TimeSource::new());
    receiver.service_interrupt();
    assert_eq!(receiver.steering(), 0);
    // Counter starts at zero; the line stays high 1200 ticks, then falls.
    receiver.steering_edge(1200);
    // Before the interrupt runs, the prior value is still visible.
    assert_eq!(receiver.steering(), 0);
    receiver.service_interrupt();
    assert_eq!(receiver.steering(), 1200);
    // The service reset the counter, so the next edge measures from zero.
    receiver.steering_edge(50);
    assert_eq!(receiver.steering(), 1200);
    receiver.service_interrupt();
    assert_eq!(receiver.steering(), 50);
}

#[test]
fn throttle_channel_independent_of_steering() {
    let mut receiver = initialize_receiver(TimeSource::new());
    receiver.steering_edge(800);
    receiver.throttle_edge(300);
    receiver.service_interrupt();
    assert_eq!(receiver.steering(), 800);
    assert_eq!(receiver.throttle(), 300);
    receiver.throttle_edge(450);
    receiver.service_interrupt();
    assert_eq!(receiver.steering(), 800);
    assert_eq!(receiver.throttle(), 450);
}

#[test]
fn edges_before_handoff_are_captured() {
    // A falling edge latched while the handles still sit in the global
    // slot is processed by the first interrupt service.
    let mut receiver = initialize_receiver(TimeSource::new());
    receiver.steering_edge(123);
    assert!(!receiver.global_slot_empty());
    receiver.service_interrupt();
    assert!(receiver.global_slot_empty());
    assert_eq!(receiver.steering(), 123);
}

#[test]
fn quiet_channel_keeps_last_value() {
    let mut receiver = initialize_receiver(TimeSource::new());
    receiver.steering_edge(999);
    receiver.service_interrupt();
    // Services without a new edge never disturb the published width.
    receiver.service_interrupt();
    receiver.service_interrupt();
    assert_eq!(receiver.steering(), 999);
}

#[test]
fn events_without_handles_are_lost() {
    let mut receiver = Receiver::new();
    receiver.steering_edge(77);
    receiver.update_edge();
    receiver.service_interrupt();
    assert_eq!(receiver.steering(), 0);
    assert!(receiver.has_watchdog_expired());
}

#[test]
fn update_edge_records_current_time() {
    let mut receiver = initialize_receiver(TimeSource::new());
    receiver.advance_time(400_000);
    assert!(receiver.has_watchdog_expired());
    receiver.update_edge();
    receiver.service_interrupt();
    assert!(!receiver.has_watchdog_expired());
    receiver.advance_time(100_001);
    assert!(receiver.has_watchdog_expired());
}

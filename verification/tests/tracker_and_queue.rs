use asyncritty::{EventQueue, UpdateTracker};

#[test]
fn new_terminal_does_not_wake_for_first_update() {
    let mut tracker = UpdateTracker::new();
    assert!(!tracker.observed());
    assert!(!tracker.record_mutation(true));
    assert!(!tracker.record_mutation(true));
}

#[test]
fn only_first_update_after_observation_wakes() {
    let mut tracker = UpdateTracker::new();
    tracker.observe();
    assert!(tracker.record_mutation(true));
    assert!(!tracker.observed());
    assert!(!tracker.record_mutation(true));

    // Reobserving enables one more wakeup.
    tracker.observe();
    assert!(tracker.record_mutation(true));
    assert!(!tracker.record_mutation(true));
}

#[test]
fn unapplied_mutation_keeps_observation() {
    let mut tracker = UpdateTracker::new();
    tracker.observe();
    assert!(!tracker.record_mutation(false));
    assert!(tracker.observed());
    assert!(tracker.record_mutation(true));
}

#[test]
fn queue_drains_in_send_order() {
    let mut queue = EventQueue::new();
    queue.push("bell");
    queue.push("wakeup");
    assert_eq!(queue.len(), 2);

    let mut drained = queue.drain();
    assert_eq!(drained.pop_front(), Some("bell"));
    assert_eq!(drained.pop_front(), Some("wakeup"));
    assert!(drained.is_empty());
    assert_eq!(queue.len(), 0);
    assert!(queue.drain().is_empty());

    queue.push("title");
    assert_eq!(queue.drain().into_iter().collect::<Vec<_>>(), vec!["title"]);
}

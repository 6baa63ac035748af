use blocksim::monitor::SecurityMonitor;

#[test]
fn log_is_bounded_and_evicts_oldest() {
    let mut monitor = SecurityMonitor::new();
    for i in 0..1001u32 {
        monitor.log_event(
            format!("event{}", i),
            "details".to_string(),
            "info".to_string(),
            "test".to_string(),
        );
    }
    assert_eq!(monitor.events.len(), 1000);
    // event0 was evicted; the log starts at event1 and ends at event1000.
    assert_eq!(monitor.events[0].event_type, "event1");
    assert_eq!(monitor.events[999].event_type, "event1000");
}

#[test]
fn one_critical_event_raises_threat_to_twenty() {
    let mut monitor = SecurityMonitor::new();
    assert_eq!(monitor.get_threat_level(), 0);
    monitor.log_event(
        "breach".to_string(),
        "details".to_string(),
        "critical".to_string(),
        "test".to_string(),
    );
    assert_eq!(monitor.get_threat_level(), 20);
}

#[test]
fn five_critical_events_saturate_at_one_hundred() {
    let mut monitor = SecurityMonitor::new();
    for _ in 0..5 {
        monitor.log_event(
            "breach".to_string(),
            "details".to_string(),
            "critical".to_string(),
            "test".to_string(),
        );
    }
    assert_eq!(monitor.get_threat_level(), 100);

    // One more still saturates.
    monitor.log_event(
        "breach".to_string(),
        "details".to_string(),
        "critical".to_string(),
        "test".to_string(),
    );
    assert_eq!(monitor.get_threat_level(), 100);
}

#[test]
fn severity_weights_and_reset() {
    let mut monitor = SecurityMonitor::new();
    monitor.log_event("a".to_string(), "d".to_string(), "high".to_string(), "s".to_string());
    assert_eq!(monitor.get_threat_level(), 10);
    monitor.log_event("a".to_string(), "d".to_string(), "medium".to_string(), "s".to_string());
    assert_eq!(monitor.get_threat_level(), 15);
    monitor.log_event("a".to_string(), "d".to_string(), "low".to_string(), "s".to_string());
    assert_eq!(monitor.get_threat_level(), 16);
    monitor.log_event("a".to_string(), "d".to_string(), "chatter".to_string(), "s".to_string());
    assert_eq!(monitor.get_threat_level(), 16);

    monitor.reset_threat_level();
    assert_eq!(monitor.get_threat_level(), 0);
    assert_eq!(monitor.events.len(), 4);
}

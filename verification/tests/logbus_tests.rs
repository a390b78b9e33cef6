use orchestrator::logbus::{LogBus, SUBSCRIBER_BUFFER};
use orchestrator::models::{BuildLog, LogLevel};

fn rec(step: usize, msg: &str) -> BuildLog {
    BuildLog {
        timestamp: step as i64,
        step,
        level: LogLevel::Info,
        message: msg.to_string(),
        command: None,
    }
}

#[test]
fn attach_replays_whole_history() {
    let mut bus = LogBus::new();
    bus.publish(rec(0, "one"));
    bus.publish(rec(1, "two"));
    let idx = bus.attach();
    let sub = &bus.subscribers[idx];
    let seen: Vec<&str> = sub.delivered.iter().map(|r| r.message.as_str()).collect();
    assert_eq!(seen, vec!["one", "two"]);
    assert!(sub.queued.is_empty());
}

#[test]
fn live_records_arrive_in_order_after_replay() {
    let mut bus = LogBus::new();
    bus.publish(rec(0, "early"));
    let idx = bus.attach();
    bus.publish(rec(1, "later"));
    bus.publish(rec(1, "latest"));
    let batch = bus.poll(idx);
    let seen: Vec<&str> = batch.iter().map(|r| r.message.as_str()).collect();
    assert_eq!(seen, vec!["later", "latest"]);
    let sub = &bus.subscribers[idx];
    let all: Vec<&str> = sub.delivered.iter().map(|r| r.message.as_str()).collect();
    assert_eq!(all, vec!["early", "later", "latest"]);
}

#[test]
fn slow_subscriber_loses_records_but_keeps_order() {
    let mut bus = LogBus::new();
    let idx = bus.attach();
    for i in 0..(SUBSCRIBER_BUFFER + 50) {
        bus.publish(rec(i, &format!("m{}", i)));
    }
    let batch = bus.poll(idx);
    assert_eq!(batch.len(), SUBSCRIBER_BUFFER);
    for (i, r) in batch.iter().enumerate() {
        assert_eq!(r.message, format!("m{}", i));
    }
    assert_eq!(bus.history.len(), SUBSCRIBER_BUFFER + 50);
}

#[test]
fn shutdown_marker_is_observable() {
    let mut bus = LogBus::new();
    assert!(!bus.shutdown);
    bus.emit_shutdown();
    assert!(bus.shutdown);
}

#[test]
fn subscribers_are_independent() {
    let mut bus = LogBus::new();
    let a = bus.attach();
    bus.publish(rec(0, "x"));
    let b = bus.attach();
    bus.publish(rec(0, "y"));
    let batch_a = bus.poll(a);
    assert_eq!(batch_a.len(), 2);
    let batch_b = bus.poll(b);
    assert_eq!(batch_b.len(), 1);
    assert_eq!(batch_b[0].message, "y");
    assert_eq!(bus.subscribers[b].delivered[0].message, "x");
}

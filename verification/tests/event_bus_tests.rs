use rabbit_trading_core::event::{Event, EventPayload};
use rabbit_trading_core::event_bus::EventBus;

fn payload_tag(event: &Event) -> String {
    match &event.payload {
        EventPayload::LifecycleStarted => "started".to_string(),
        EventPayload::LifecycleStopped => "stopped".to_string(),
        EventPayload::BrokerCallInvoked { call } => format!("invoked:{call}"),
        EventPayload::BrokerCallSucceeded { call } => format!("succeeded:{call}"),
        EventPayload::BrokerCallFailed { call, reason } => format!("failed:{call}:{reason}"),
        EventPayload::Custom { tag, detail } => format!("custom:{tag}:{detail}"),
    }
}

fn custom(tag: &str) -> EventPayload {
    EventPayload::Custom {
        tag: tag.to_string(),
        detail: String::new(),
    }
}

fn drain(bus: &mut EventBus, sub: usize) -> Vec<Event> {
    let mut out = Vec::new();
    while let Some(event) = bus.next_event(sub) {
        out.push(event);
    }
    out
}

#[test]
fn early_subscriber_observes_every_publish_in_order() {
    let mut bus = EventBus::with_capacity("seed".to_string(), "pod".to_string(), 10);
    let early = bus.subscribe();
    bus.publish(custom("p1"), 1);
    bus.publish(custom("p2"), 2);
    let late = bus.subscribe();
    bus.publish(custom("p3"), 3);

    let seen_early: Vec<String> = drain(&mut bus, early).iter().map(payload_tag).collect();
    assert_eq!(seen_early, vec!["custom:p1:", "custom:p2:", "custom:p3:"]);

    let seen_late: Vec<String> = drain(&mut bus, late).iter().map(payload_tag).collect();
    assert_eq!(seen_late, vec!["custom:p3:"]);
}

#[test]
fn one_subscriber_consuming_does_not_affect_another() {
    let mut bus = EventBus::with_capacity("seed".to_string(), "pod".to_string(), 10);
    let a = bus.subscribe();
    let b = bus.subscribe();
    bus.publish(custom("x"), 1);
    bus.publish(custom("y"), 2);

    let seen_a: Vec<String> = drain(&mut bus, a).iter().map(payload_tag).collect();
    assert_eq!(seen_a, vec!["custom:x:", "custom:y:"]);
    assert!(bus.next_event(a).is_none());

    let seen_b: Vec<String> = drain(&mut bus, b).iter().map(payload_tag).collect();
    assert_eq!(seen_b, vec!["custom:x:", "custom:y:"]);
}

#[test]
fn replay_log_holds_the_k_most_recent_in_publish_order() {
    let mut bus = EventBus::with_capacity("seed".to_string(), "pod".to_string(), 3);
    for i in 0..7u64 {
        bus.publish(custom(&format!("p{i}")), i);
    }
    let log = bus.inspect_log();
    assert_eq!(log.len(), 3);
    let tags: Vec<String> = log.iter().map(payload_tag).collect();
    assert_eq!(tags, vec!["custom:p4:", "custom:p5:", "custom:p6:"]);
    assert_eq!(log[0].timestamp, 4);
    assert_eq!(log[2].timestamp, 6);
}

#[test]
fn replay_log_below_capacity_holds_everything() {
    let mut bus = EventBus::with_capacity("seed".to_string(), "pod".to_string(), 5);
    bus.publish(custom("only"), 9);
    let log = bus.inspect_log();
    assert_eq!(log.len(), 1);
    assert_eq!(payload_tag(&log[0]), "custom:only:");
    assert_eq!(log[0].broker_id, "seed");
    assert_eq!(log[0].pod_id, "pod");
}

#[test]
fn shallow_clone_stamps_new_broker_id_on_shared_bus() {
    let mut bus = EventBus::with_capacity("original".to_string(), "pod".to_string(), 10);
    let sub = bus.subscribe();
    let clone_handle = bus.shallow_clone(Some("renamed".to_string()));
    bus.publish_via(&clone_handle, custom("through-clone"), 5);

    // The publish through the clone went to the shared log ...
    let log = bus.inspect_log();
    assert_eq!(log.len(), 1);
    assert_eq!(log[0].broker_id, "renamed");

    // ... and to the original handle's subscriber.
    let seen: Vec<Event> = drain(&mut bus, sub);
    assert_eq!(seen.len(), 1);
    assert_eq!(seen[0].broker_id, "renamed");
    assert_eq!(seen[0].pod_id, "pod");
    assert_eq!(seen[0].timestamp, 5);
}

#[test]
fn shallow_clone_without_new_id_keeps_the_old_namespace() {
    let mut bus = EventBus::with_capacity("original".to_string(), "pod".to_string(), 10);
    let handle = bus.shallow_clone(None);
    bus.publish_via(&handle, custom("kept"), 1);
    assert_eq!(bus.inspect_log()[0].broker_id, "original");
}

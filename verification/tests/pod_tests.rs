use rabbit_trading_core::event::EventPayload;
use rabbit_trading_core::model::ConfigMap;
use rabbit_trading_core::pod::{
    get_persistent_kv_instance, ComponentConfig, Pod, PodConfig, Registry,
};

fn component(id: &str) -> ComponentConfig {
    ComponentConfig {
        identifier: id.to_string(),
        config_map: ConfigMap::new(),
    }
}

fn ids(names: &[&str]) -> Vec<String> {
    names.iter().map(|n| n.to_string()).collect()
}

fn two_broker_config(listeners: &[&str]) -> PodConfig {
    PodConfig {
        broker_list: vec![component("A"), component("B")],
        metrics_registry: component("metrics"),
        persistent_kv_store: component("MemoryKVStore"),
        strategy: component("PrintLivePrice"),
        event_listener_list: listeners.iter().map(|l| component(l)).collect(),
    }
}

fn full_registry() -> Registry {
    Registry {
        broker_ids: ids(&["A", "B"]),
        metrics_registry_ids: ids(&["metrics"]),
        store_ids: ids(&["MemoryKVStore"]),
        strategy_ids: ids(&["PrintLivePrice"]),
        event_listener_ids: ids(&["log_listener"]),
    }
}

#[test]
fn initialize_succeeds_when_everything_resolves() {
    let mut pod = Pod::new(two_broker_config(&["log_listener"]), "pod-1".to_string());
    let strategy = pod.initialize(&full_registry()).expect("all identifiers are known");
    assert_eq!(strategy.identifier, "PrintLivePrice");
    assert_eq!(strategy.context.broker_list.len(), 2);
    assert_eq!(strategy.context.broker_list[0].identifier, "A");
    assert_eq!(strategy.context.broker_list[1].identifier, "B");
    assert_eq!(strategy.context.persistent_kv_store.identifier, "MemoryKVStore");
}

#[test]
fn one_unresolvable_broker_fails_with_aggregate_error_listing_all() {
    // Two brokers {"A","B"}, B unresolvable: the aggregate error lists both.
    let mut registry = full_registry();
    registry.broker_ids = ids(&["A"]);
    let mut pod = Pod::new(two_broker_config(&["log_listener"]), "pod-1".to_string());
    let err = pod.initialize(&registry).unwrap_err();
    assert_eq!(err.code, "ILLEGAL_BROKER_ID");
    assert_eq!(err.message, "A,B");
    // Nothing later in the sequence was started: no event was published and
    // the failure came before any listener subscription.
    assert!(pod.inspect_log().is_empty());
}

#[test]
fn unresolvable_metrics_registry_fails_every_broker() {
    let mut registry = full_registry();
    registry.metrics_registry_ids = ids(&[]);
    let pod = Pod::new(two_broker_config(&[]), "pod-1".to_string());
    let err = pod.initialize_broker_list(&registry).unwrap_err();
    assert_eq!(err.code, "ILLEGAL_BROKER_ID");
    assert_eq!(err.message, "A,B");
}

#[test]
fn broker_handles_carry_their_own_bus_namespace() {
    let pod = Pod::new(two_broker_config(&[]), "pod-1".to_string());
    let brokers = pod.initialize_broker_list(&full_registry()).unwrap();
    assert_eq!(brokers.len(), 2);
    assert_eq!(brokers[0].identifier, "A");
    assert_eq!(brokers[1].identifier, "B");
}

#[test]
fn unknown_store_identifier_is_reported() {
    let err = get_persistent_kv_instance("RedisKVStore".to_string(), ConfigMap::new(), &full_registry())
        .unwrap_err();
    assert_eq!(err.code, "IDENTIFIER_NOT_MATCHED");
    assert_eq!(err.message, "PersistentKV: RedisKVStore");

    let ok = get_persistent_kv_instance("MemoryKVStore".to_string(), ConfigMap::new(), &full_registry()).unwrap();
    assert_eq!(ok.identifier, "MemoryKVStore");
}

#[test]
fn first_unresolvable_listener_short_circuits() {
    let mut pod = Pod::new(
        two_broker_config(&["log_listener", "missing_listener", "log_listener"]),
        "pod-1".to_string(),
    );
    let err = pod.initialize(&full_registry()).unwrap_err();
    assert_eq!(err.code, "IDENTIFIER_NOT_MATCHED");
    assert_eq!(err.message, "EventListener: missing_listener");
}

#[test]
fn unknown_strategy_identifier_is_reported() {
    let mut registry = full_registry();
    registry.strategy_ids = ids(&["SomethingElse"]);
    let mut pod = Pod::new(two_broker_config(&[]), "pod-1".to_string());
    let err = pod.initialize(&registry).unwrap_err();
    assert_eq!(err.code, "IDENTIFIER_NOT_MATCHED");
    assert_eq!(err.message, "Strategy: PrintLivePrice");
}

#[test]
fn stop_sets_the_global_signal_exactly_once() {
    let mut pod = Pod::new(two_broker_config(&[]), "pod-1".to_string());
    assert!(!pod.global_stop_requested());
    pod.stop();
    assert!(pod.global_stop_requested());
}

#[test]
fn listener_streams_observe_only_later_publishes() {
    let mut pod = Pod::new(two_broker_config(&["log_listener"]), "pod-1".to_string());
    // One event is published before the listener is started ...
    pod.bus_mut().publish(
        EventPayload::Custom {
            tag: "early".to_string(),
            detail: String::new(),
        },
        1,
    );
    pod.initialize(&full_registry()).expect("all identifiers are known");
    // ... and one after.
    let bus = pod.bus_mut();
    bus.publish(
        EventPayload::Custom {
            tag: "late".to_string(),
            detail: String::new(),
        },
        2,
    );
    // The listener's subscription (the bus's first) yields exactly the
    // later event: nothing from before it subscribed, in publish order.
    let event = bus.next_event(0).expect("the later publish is queued");
    assert_eq!(event.timestamp, 2);
    assert!(matches!(&event.payload, EventPayload::Custom { tag, .. } if tag == "late"));
    assert!(bus.next_event(0).is_none());
}

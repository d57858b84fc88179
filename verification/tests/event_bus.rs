use appshell::bus::EventBus;
use appshell::event::Event;
use appshell::event::EventPriority;
use appshell::event::EventType;
use appshell::json_value::JsonValue;

fn custom(name: &str, payload: JsonValue, source: &str) -> Event {
    Event::new(EventType::Custom { name: name.to_string(), payload }, source)
}

#[test]
fn subscribe_and_emit_dispatches_to_matching_subscription() {
    let mut bus: EventBus<i32> = EventBus::new();
    let id = bus.subscribe("test.event", 1);
    assert_eq!(id.len(), 36);
    let ids = bus.emit(custom("test.event", JsonValue::Null, "test")).unwrap();
    assert_eq!(ids, vec![id]);
}

#[test]
fn emit_skips_subscriptions_whose_pattern_does_not_match() {
    let mut bus: EventBus<i32> = EventBus::new();
    let hit = bus.subscribe("build.*", 1);
    let _miss = bus.subscribe("database.*", 2);
    let ids = bus.emit(custom("build.started", JsonValue::Null, "test")).unwrap();
    assert_eq!(ids, vec![hit]);
}

#[test]
fn fanout_reaches_each_subscription_exactly_once() {
    let mut bus: EventBus<i32> = EventBus::new();
    let a = bus.subscribe("build.*", 1);
    let b = bus.subscribe("build.*", 2);
    let ids = bus.emit(custom("build.started", JsonValue::Null, "test")).unwrap();
    assert_eq!(ids.iter().filter(|i| **i == a).count(), 1);
    assert_eq!(ids.iter().filter(|i| **i == b).count(), 1);
    assert_eq!(ids.len(), 2);
}

#[test]
fn unsubscribe_returns_true_then_false() {
    let mut bus: EventBus<i32> = EventBus::new();
    let id = bus.subscribe("a.*", 7);
    assert!(bus.unsubscribe(&id));
    assert!(!bus.unsubscribe(&id));
}

#[test]
fn unsubscribed_listener_no_longer_receives() {
    let mut bus: EventBus<i32> = EventBus::new();
    let a = bus.subscribe("a.*", 1);
    let b = bus.subscribe("a.*", 2);
    assert!(bus.unsubscribe(&a));
    let ids = bus.emit(custom("a.x", JsonValue::Null, "test")).unwrap();
    assert_eq!(ids, vec![b]);
}

#[test]
fn history_keeps_the_last_thousand_newest_first() {
    let mut bus: EventBus<i32> = EventBus::new();
    for i in 1..=1050i64 {
        bus.emit(custom("tick", JsonValue::Int(i), "test")).unwrap();
    }
    let history = bus.get_event_history(None);
    assert_eq!(history.len(), 1000);
    let value = |e: &Event| match &e.event_type {
        EventType::Custom { payload: JsonValue::Int(v), .. } => *v,
        _ => panic!("unexpected kind"),
    };
    assert_eq!(value(&history[0]), 1050);
    assert_eq!(value(&history[999]), 51);
}

#[test]
fn history_limit_returns_the_newest_records() {
    let mut bus: EventBus<i32> = EventBus::new();
    for i in 1..=5i64 {
        bus.emit(custom("tick", JsonValue::Int(i), "test")).unwrap();
    }
    let history = bus.get_event_history(Some(2));
    assert_eq!(history.len(), 2);
    assert_eq!(history[0].name, "tick");
    let recent = bus.get_event_history(Some(10));
    assert_eq!(recent.len(), 5);
}

#[test]
fn build_subscription_sees_start_and_completion_in_order() {
    let mut bus: EventBus<i32> = EventBus::new();
    let sub = bus.subscribe("build.*", 1);
    let started = bus.emit_build_started("b1", "test").unwrap();
    assert_eq!(started, vec![sub.clone()]);
    let completed = bus.emit_build_completed("b1", true, 1200, "test").unwrap();
    assert_eq!(completed, vec![sub]);
    let history = bus.get_event_history(None);
    assert_eq!(history.len(), 2);
    assert_eq!(history[0].name, "build.completed");
    assert_eq!(history[1].name, "build.started");
}

#[test]
fn broadcast_receiver_sees_emitted_records() {
    let mut bus: EventBus<i32> = EventBus::new();
    let mut rx = bus.get_receiver();
    bus.emit(custom("test.event", JsonValue::Bool(true), "test")).unwrap();
    let got = rx.try_recv().unwrap();
    assert_eq!(got.name, "test.event");
    assert!(rx.try_recv().is_err());
}

#[test]
fn derived_names_follow_the_kind() {
    let mut bus: EventBus<i32> = EventBus::new();
    bus.emit_counter_increment("test").unwrap();
    bus.emit_counter_value_changed(42, "test").unwrap();
    bus.emit_users_fetched(0, Vec::new(), "test").unwrap();
    bus.emit_system_info_request("test").unwrap();
    bus.emit_webui_connected("test").unwrap();
    bus.emit_webui_ready("test").unwrap();
    bus.emit_webui_disconnected("test").unwrap();
    bus.emit_counter_reset("test").unwrap();
    bus.emit_build_progress("b1", "compile", 40, "test").unwrap();
    let history = bus.get_event_history(None);
    assert_eq!(history[0].name, "build.progress");
    assert_eq!(history[1].name, "counter.reset");
    assert_eq!(history[2].name, "webui.disconnected");
    assert_eq!(history[3].name, "webui.ready");
    assert_eq!(history[4].name, "webui.connected");
    assert_eq!(history[5].name, "system.info_requested");
    assert_eq!(history[6].name, "database.users_fetched");
    assert_eq!(history[7].name, "counter.value_changed");
    assert_eq!(history[8].name, "counter.increment");
}

#[test]
fn record_builders_fill_the_optional_fields() {
    let e = Event::new(EventType::DatabaseConnected, "db")
        .with_name("database.custom")
        .with_target("frontend")
        .with_priority(EventPriority::High)
        .with_metadata("attempt".to_string(), JsonValue::Int(3))
        .with_correlation_id("corr-1")
        .with_reply_to("reply.here");
    assert_eq!(e.name, "database.custom");
    assert_eq!(e.source, "db");
    assert_eq!(e.target.as_deref(), Some("frontend"));
    assert!(matches!(e.priority, EventPriority::High));
    assert_eq!(e.metadata.len(), 1);
    assert_eq!(e.metadata[0].0, "attempt");
    assert_eq!(e.correlation_id.as_deref(), Some("corr-1"));
    assert_eq!(e.reply_to.as_deref(), Some("reply.here"));
    assert_eq!(e.id.len(), 36);
}

#[test]
fn emitting_a_batch_dispatches_each_record() {
    let mut bus: EventBus<i32> = EventBus::new();
    let sub = bus.subscribe("batch.*", 1);
    let batch = vec![
        custom("batch.one", JsonValue::Null, "test"),
        custom("other.topic", JsonValue::Null, "test"),
        custom("batch.two", JsonValue::Null, "test"),
    ];
    let results = bus.emit_all(batch);
    assert_eq!(results.len(), 3);
    assert_eq!(results[0], vec![sub.clone()]);
    assert!(results[1].is_empty());
    assert_eq!(results[2], vec![sub]);
    assert_eq!(bus.get_event_history(None).len(), 3);
}

#[test]
fn default_priority_is_normal() {
    let e = Event::new(EventType::CounterIncrement, "test");
    assert!(matches!(e.priority, EventPriority::Normal));
    assert!(matches!(EventPriority::default(), EventPriority::Normal));
}

#[test]
fn history_snapshots_survive_cloning() {
    let mut bus: EventBus<i32> = EventBus::new();
    bus.emit(custom("a.b", JsonValue::Str("payload".to_string()), "src")).unwrap();
    let history = bus.get_event_history(None);
    let again = bus.get_event_history(None);
    assert_eq!(history[0].name, again[0].name);
    assert_eq!(history[0].id, again[0].id);
    assert_eq!(history[0].source, "src");
}

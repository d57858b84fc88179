use appshell::event::EventType;
use appshell::json_value::JsonValue;
use appshell::websocket_manager::WebSocketManager;
use appshell::websocket_manager::WebSocketState;

#[test]
fn fresh_manager_is_disconnected_with_zero_metrics() {
    let m = WebSocketManager::new();
    assert!(matches!(m.get_state(), WebSocketState::Disconnected));
    let metrics = m.get_metrics();
    assert_eq!(metrics.connection_attempts, 0);
    assert_eq!(metrics.successful_connections, 0);
    assert_eq!(metrics.failed_connections, 0);
    assert!(metrics.last_error.is_none());
}

#[test]
fn success_moves_to_connected_and_resets_the_retry_counter() {
    let mut m = WebSocketManager::new();
    m.handle_connection_failure("first");
    let events = m.handle_connection_success();
    assert!(matches!(m.get_state(), WebSocketState::Connected));
    assert_eq!(events.len(), 1);
    assert_eq!(events[0].name, "websocket.connected");
    let metrics = m.get_metrics();
    assert_eq!(metrics.connection_attempts, 2);
    assert_eq!(metrics.successful_connections, 1);
    assert_eq!(metrics.failed_connections, 1);
}

#[test]
fn failure_below_the_bound_moves_to_reconnecting() {
    let mut m = WebSocketManager::new();
    let events = m.handle_connection_failure("boom");
    assert!(matches!(m.get_state(), WebSocketState::Reconnecting));
    assert_eq!(events.len(), 2);
    assert_eq!(events[0].name, "websocket.error");
    assert_eq!(events[1].name, "websocket.reconnecting");
    assert_eq!(m.get_metrics().last_error.as_deref(), Some("boom"));
}

#[test]
fn final_failure_from_connected_yields_failed_with_one_error_and_one_change() {
    let mut m = WebSocketManager::new();
    for _ in 0..9 {
        m.handle_connection_failure("flaky");
    }
    m.set_state(WebSocketState::Connected);
    let events = m.handle_connection_failure("x");
    assert!(matches!(m.get_state(), WebSocketState::Failed));
    assert_eq!(events.len(), 2);
    assert_eq!(events[0].name, "websocket.error");
    assert_eq!(events[1].name, "websocket.failed");
}

#[test]
fn attempts_always_balance_successes_and_failures() {
    let mut m = WebSocketManager::new();
    m.handle_connection_failure("a");
    m.handle_connection_success();
    m.handle_connection_failure("b");
    m.handle_connection_failure("c");
    m.handle_connection_success();
    let metrics = m.get_metrics();
    assert_eq!(
        metrics.connection_attempts,
        metrics.successful_connections + metrics.failed_connections
    );
    assert_eq!(metrics.connection_attempts, 5);
    m.reset_metrics();
    let zeroed = m.get_metrics();
    assert_eq!(zeroed.connection_attempts, 0);
    assert_eq!(zeroed.successful_connections, 0);
    assert_eq!(zeroed.failed_connections, 0);
    assert_eq!(zeroed.uptime_seconds, 0);
    assert!(zeroed.last_error.is_none());
}

#[test]
fn the_error_log_keeps_the_newest_fifty_entries() {
    let mut m = WebSocketManager::new();
    for i in 0..60 {
        m.record_error(&format!("error {}", i));
    }
    let log = m.get_error_log();
    assert_eq!(log.len(), 50);
    assert_eq!(log[0].1, "error 10");
    assert_eq!(log[49].1, "error 59");
}

#[test]
fn state_change_payload_carries_both_states() {
    let mut m = WebSocketManager::new();
    let events = m.set_state(WebSocketState::Connecting);
    assert_eq!(events.len(), 1);
    let e = &events[0];
    assert_eq!(e.name, "websocket.connecting");
    assert_eq!(e.source, "websocket_manager");
    match &e.event_type {
        EventType::Custom { name, payload } => {
            assert_eq!(name, "websocket.connecting");
            match payload {
                JsonValue::Obj(pairs) => {
                    assert_eq!(pairs.len(), 3);
                    assert_eq!(pairs[0].0, "previous_state");
                    assert!(matches!(&pairs[0].1, JsonValue::Str(s) if s == "Disconnected"));
                    assert_eq!(pairs[1].0, "current_state");
                    assert!(matches!(&pairs[1].1, JsonValue::Str(s) if s == "Connecting"));
                    assert_eq!(pairs[2].0, "timestamp");
                },
                _ => panic!("payload is not an object"),
            }
        },
        _ => panic!("record is not custom"),
    }
}

#[test]
fn setting_the_same_state_emits_nothing() {
    let mut m = WebSocketManager::new();
    let events = m.set_state(WebSocketState::Disconnected);
    assert!(events.is_empty());
}

#[test]
fn error_event_carries_a_metrics_snapshot() {
    let mut m = WebSocketManager::new();
    m.increment_message_sent(100);
    m.increment_message_received(50);
    let events = m.record_error("snapshot check");
    assert_eq!(events.len(), 1);
    match &events[0].event_type {
        EventType::Custom { payload: JsonValue::Obj(pairs), .. } => {
            assert!(matches!(&pairs[0].1, JsonValue::Str(s) if s == "snapshot check"));
            match &pairs[2].1 {
                JsonValue::Obj(mp) => {
                    assert_eq!(mp.len(), 8);
                    assert_eq!(mp[3].0, "messages_sent");
                    assert!(matches!(mp[3].1, JsonValue::Int(1)));
                    assert_eq!(mp[5].0, "bytes_sent");
                    assert!(matches!(mp[5].1, JsonValue::Int(100)));
                    assert_eq!(mp[6].0, "bytes_received");
                    assert!(matches!(mp[6].1, JsonValue::Int(50)));
                },
                _ => panic!("metrics is not an object"),
            }
        },
        _ => panic!("record is not custom"),
    }
}

#[test]
fn reconnect_runs_only_from_reconnecting() {
    let mut m = WebSocketManager::new();
    assert!(m.attempt_reconnect().is_empty());
    assert!(matches!(m.get_state(), WebSocketState::Disconnected));
    m.handle_connection_failure("drop");
    let events = m.attempt_reconnect();
    assert!(matches!(m.get_state(), WebSocketState::Connecting));
    assert_eq!(events.len(), 1);
    assert_eq!(events[0].name, "websocket.connecting");
}

#[test]
fn disconnect_reports_the_transition_once() {
    let mut m = WebSocketManager::new();
    m.handle_connection_success();
    let events = m.disconnect();
    assert!(matches!(m.get_state(), WebSocketState::Disconnected));
    assert_eq!(events.len(), 1);
    assert_eq!(events[0].name, "websocket.disconnected");
    assert!(m.disconnect().is_empty());
}

#[test]
fn monitoring_counts_uptime_and_duration() {
    let mut m = WebSocketManager::new();
    m.start_monitoring();
    m.monitor_tick();
    m.monitor_tick();
    assert_eq!(m.get_metrics().uptime_seconds, 2);
    assert!(m.get_metrics().connection_duration_ms.is_none());
    m.handle_connection_success();
    m.monitor_tick();
    assert!(m.get_detailed_metrics().connection_duration_ms.is_some());
    m.stop_monitoring();
}

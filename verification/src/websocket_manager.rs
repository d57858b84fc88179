//! The connection-resilience state machine: it tracks the liveness of
//! the UI-bridge connection, retries with a bounded attempt count, and
//! reports every transition and error as an event record.
//!
//! Each mutating call returns the records that must be handed to the
//! bus before anything else is done; the surrounding runtime performs
//! the actual waiting and reconnecting.

use vstd::prelude::*;

use crate::clock::now_millis;
use crate::event::Event;
use crate::event::EventType;
use crate::json_value::JsonValue;

verus! {

/// The liveness of the managed connection.
#[derive(Debug, Clone, Copy, PartialEq, Eq, Structural)]
pub enum WebSocketState {
    Disconnected,
    Connecting,
    Connected,
    Reconnecting,
    Failed,
}

/// The display name of a state, as carried in transition payloads.
pub open spec fn spec_state_name(s: WebSocketState) -> Seq<char> {
    match s {
        WebSocketState::Disconnected => "Disconnected"@,
        WebSocketState::Connecting => "Connecting"@,
        WebSocketState::Connected => "Connected"@,
        WebSocketState::Reconnecting => "Reconnecting"@,
        WebSocketState::Failed => "Failed"@,
    }
}

/// The topic name of the record announcing a transition into `s`.
pub open spec fn spec_state_event_name(s: WebSocketState) -> Seq<char> {
    match s {
        WebSocketState::Connected => "websocket.connected"@,
        WebSocketState::Disconnected => "websocket.disconnected"@,
        WebSocketState::Connecting => "websocket.connecting"@,
        WebSocketState::Reconnecting => "websocket.reconnecting"@,
        WebSocketState::Failed => "websocket.failed"@,
    }
}

fn state_name(s: WebSocketState) -> (r: String)
    ensures
        r@ == spec_state_name(s),
{
    match s {
        WebSocketState::Disconnected => String::from_str("Disconnected"),
        WebSocketState::Connecting => String::from_str("Connecting"),
        WebSocketState::Connected => String::from_str("Connected"),
        WebSocketState::Reconnecting => String::from_str("Reconnecting"),
        WebSocketState::Failed => String::from_str("Failed"),
    }
}

fn state_event_name(s: WebSocketState) -> (r: String)
    ensures
        r@ == spec_state_event_name(s),
{
    match s {
        WebSocketState::Connected => String::from_str("websocket.connected"),
        WebSocketState::Disconnected => String::from_str("websocket.disconnected"),
        WebSocketState::Connecting => String::from_str("websocket.connecting"),
        WebSocketState::Reconnecting => String::from_str("websocket.reconnecting"),
        WebSocketState::Failed => String::from_str("websocket.failed"),
    }
}

/// The transport counters and diagnostics of the connection.
#[derive(Debug)]
pub struct WebSocketMetrics {
    pub connection_attempts: u32,
    pub successful_connections: u32,
    pub failed_connections: u32,
    pub messages_sent: u64,
    pub messages_received: u64,
    pub bytes_sent: u64,
    pub bytes_received: u64,
    pub last_error: Option<String>,
    pub last_error_time: Option<u64>,
    pub uptime_seconds: u64,
    pub connection_duration_ms: Option<u64>,
    pub reconnect_count: u32,
}

impl Clone for WebSocketMetrics {
    /// A clone is equal to the original.
    fn clone(&self) -> (res: Self)
        ensures
            res == *self,
    {
        WebSocketMetrics {
            connection_attempts: self.connection_attempts,
            successful_connections: self.successful_connections,
            failed_connections: self.failed_connections,
            messages_sent: self.messages_sent,
            messages_received: self.messages_received,
            bytes_sent: self.bytes_sent,
            bytes_received: self.bytes_received,
            last_error: match &self.last_error {
                Some(s) => Some(s.clone()),
                None => None,
            },
            last_error_time: self.last_error_time,
            uptime_seconds: self.uptime_seconds,
            connection_duration_ms: self.connection_duration_ms,
            reconnect_count: self.reconnect_count,
        }
    }
}

/// Every attempt is counted exactly once, as a success or as a failure.
pub open spec fn metrics_balanced(m: WebSocketMetrics) -> bool {
    m.connection_attempts == m.successful_connections + m.failed_connections
}

/// The all-zero counters of a fresh or reset machine.
pub open spec fn metrics_zero(m: WebSocketMetrics) -> bool {
    &&& m.connection_attempts == 0
    &&& m.successful_connections == 0
    &&& m.failed_connections == 0
    &&& m.messages_sent == 0
    &&& m.messages_received == 0
    &&& m.bytes_sent == 0
    &&& m.bytes_received == 0
    &&& m.last_error is None
    &&& m.last_error_time is None
    &&& m.uptime_seconds == 0
    &&& m.connection_duration_ms is None
    &&& m.reconnect_count == 0
}

/// Whether a payload pair carries the given key and string value.
pub open spec fn is_str_pair(p: (String, JsonValue), key: Seq<char>, v: Seq<char>) -> bool {
    &&& p.0@ == key
    &&& match p.1 {
        JsonValue::Str(s) => s@ == v,
        _ => false,
    }
}

/// Whether a payload pair carries the given key and integer value.
pub open spec fn is_int_pair(p: (String, JsonValue), key: Seq<char>, v: i64) -> bool {
    &&& p.0@ == key
    &&& p.1 == JsonValue::Int(v)
}

/// A record announcing the transition `from` to `to`: named after the
/// new state, carrying the previous state, the current state and a
/// timestamp.
pub open spec fn is_state_change_event(e: Event, from: WebSocketState, to: WebSocketState) -> bool {
    &&& e.name@ == spec_state_event_name(to)
    &&& e.source@ == "websocket_manager"@
    &&& match e.event_type {
        EventType::Custom { name, payload } => {
            &&& name@ == spec_state_event_name(to)
            &&& match payload {
                JsonValue::Obj(pairs) => {
                    &&& pairs@.len() == 3
                    &&& is_str_pair(pairs@[0], "previous_state"@, spec_state_name(from))
                    &&& is_str_pair(pairs@[1], "current_state"@, spec_state_name(to))
                    &&& pairs@[2].0@ == "timestamp"@
                    &&& pairs@[2].1 is Int
                },
                _ => false,
            }
        },
        _ => false,
    }
}

/// A record announcing one recorded error: the message, a timestamp,
/// and a snapshot of the counters as they stood when it was recorded.
pub open spec fn is_error_event(e: Event, msg: Seq<char>, m: WebSocketMetrics) -> bool {
    &&& e.name@ == "websocket.error"@
    &&& e.source@ == "websocket_manager"@
    &&& match e.event_type {
        EventType::Custom { name, payload } => {
            &&& name@ == "websocket.error"@
            &&& match payload {
                JsonValue::Obj(pairs) => {
                    &&& pairs@.len() == 3
                    &&& is_str_pair(pairs@[0], "error"@, msg)
                    &&& pairs@[1].0@ == "timestamp"@
                    &&& pairs@[1].1 is Int
                    &&& pairs@[2].0@ == "metrics"@
                    &&& match pairs@[2].1 {
                        JsonValue::Obj(mp) => {
                            &&& mp@.len() == 8
                            &&& is_int_pair(
                                mp@[0],
                                "connection_attempts"@,
                                m.connection_attempts as i64,
                            )
                            &&& is_int_pair(
                                mp@[1],
                                "successful_connections"@,
                                m.successful_connections as i64,
                            )
                            &&& is_int_pair(
                                mp@[2],
                                "failed_connections"@,
                                m.failed_connections as i64,
                            )
                            &&& is_int_pair(mp@[3], "messages_sent"@, m.messages_sent as i64)
                            &&& is_int_pair(
                                mp@[4],
                                "messages_received"@,
                                m.messages_received as i64,
                            )
                            &&& is_int_pair(mp@[5], "bytes_sent"@, m.bytes_sent as i64)
                            &&& is_int_pair(mp@[6], "bytes_received"@, m.bytes_received as i64)
                            &&& is_int_pair(mp@[7], "uptime_seconds"@, m.uptime_seconds as i64)
                        },
                        _ => false,
                    }
                },
                _ => false,
            }
        },
        _ => false,
    }
}

/// The state a failure leads to: Failed once the attempts are used up,
/// Reconnecting before that.
pub open spec fn failure_next_state(attempts_after: u32, max_attempts: u32) -> WebSocketState {
    if attempts_after >= max_attempts {
        WebSocketState::Failed
    } else {
        WebSocketState::Reconnecting
    }
}

/// The connection manager: the current state, the counters, the bounded
/// error log, and the retry configuration.
pub struct WebSocketManager {
    pub state: WebSocketState,
    pub metrics: WebSocketMetrics,
    pub reconnect_interval_ms: u64,
    pub max_reconnect_attempts: u32,
    pub current_reconnect_attempt: u32,
    pub is_running: bool,
    pub connection_start_time_ms: Option<i64>,
    pub error_log: Vec<(u64, String)>,
    pub max_error_log_size: usize,
}

impl WebSocketManager {
    /// The counters balance and the error log stays within its bound.
    pub open spec fn wf(&self) -> bool {
        &&& metrics_balanced(self.metrics)
        &&& self.error_log@.len() <= self.max_error_log_size
        &&& self.max_error_log_size >= 1
    }

    /// A fresh manager: Disconnected, all counters zero, an empty error
    /// log bounded at 50 entries, a 5 second retry interval and at most
    /// 10 reconnect attempts.
    pub fn new() -> (m: WebSocketManager)
        ensures
            m.wf(),
            m.state == WebSocketState::Disconnected,
            metrics_zero(m.metrics),
            m.reconnect_interval_ms == 5000,
            m.max_reconnect_attempts == 10,
            m.current_reconnect_attempt == 0,
            !m.is_running,
            m.connection_start_time_ms is None,
            m.error_log@.len() == 0,
            m.max_error_log_size == 50,
    {
        WebSocketManager {
            state: WebSocketState::Disconnected,
            metrics: WebSocketMetrics {
                connection_attempts: 0,
                successful_connections: 0,
                failed_connections: 0,
                messages_sent: 0,
                messages_received: 0,
                bytes_sent: 0,
                bytes_received: 0,
                last_error: None,
                last_error_time: None,
                uptime_seconds: 0,
                connection_duration_ms: None,
                reconnect_count: 0,
            },
            reconnect_interval_ms: 5000,
            max_reconnect_attempts: 10,
            current_reconnect_attempt: 0,
            is_running: false,
            connection_start_time_ms: None,
            error_log: Vec::new(),
            max_error_log_size: 50,
        }
    }

    /// The current state.
    pub fn get_state(&self) -> (r: WebSocketState)
        ensures
            r == self.state,
    {
        self.state
    }

    /// A snapshot of the counters.
    pub fn get_metrics(&self) -> (r: WebSocketMetrics)
        ensures
            r == self.metrics,
    {
        self.metrics.clone()
    }

    /// A snapshot of the counters, identical to `get_metrics`.
    pub fn get_detailed_metrics(&self) -> (r: WebSocketMetrics)
        ensures
            r == self.metrics,
    {
        self.metrics.clone()
    }

    /// A copy of the error log, oldest first.
    pub fn get_error_log(&self) -> (r: Vec<(u64, String)>)
        ensures
            r@ == self.error_log@,
    {
        let mut out: Vec<(u64, String)> = Vec::new();
        let mut i: usize = 0;
        while i < self.error_log.len()
            invariant
                i <= self.error_log@.len(),
                out@ =~= self.error_log@.subrange(0, i as int),
            decreases self.error_log@.len() - i,
        {
            let pair = &self.error_log[i];
            out.push((pair.0, pair.1.clone()));
            proof {
                assert(out@ =~= self.error_log@.subrange(0, i + 1));
            }
            i += 1;
        }
        proof {
            assert(out@ =~= self.error_log@);
        }
        out
    }

    fn make_state_change_event(&self, from: WebSocketState, to: WebSocketState) -> (e: Event)
        ensures
            is_state_change_event(e, from, to),
    {
        let mut pairs: Vec<(String, JsonValue)> = Vec::new();
        pairs.push((String::from_str("previous_state"), JsonValue::Str(state_name(from))));
        pairs.push((String::from_str("current_state"), JsonValue::Str(state_name(to))));
        pairs.push((String::from_str("timestamp"), JsonValue::Int(now_millis())));
        let payload = JsonValue::Obj(pairs);
        Event::new(
            EventType::Custom { name: state_event_name(to), payload },
            "websocket_manager",
        )
    }

    /// Moves to `new_state`. A transition that changes the state hands
    /// back exactly one state-change record to emit before returning to
    /// the caller; setting the current state again hands back none.
    pub fn set_state(&mut self, new_state: WebSocketState) -> (events: Vec<Event>)
        ensures
            final(self).state == new_state,
            final(self).metrics == old(self).metrics,
            final(self).reconnect_interval_ms == old(self).reconnect_interval_ms,
            final(self).max_reconnect_attempts == old(self).max_reconnect_attempts,
            final(self).current_reconnect_attempt == old(self).current_reconnect_attempt,
            final(self).is_running == old(self).is_running,
            final(self).connection_start_time_ms == old(self).connection_start_time_ms,
            final(self).error_log == old(self).error_log,
            final(self).max_error_log_size == old(self).max_error_log_size,
            old(self).state == new_state ==> events@.len() == 0,
            old(self).state != new_state ==> events@.len() == 1 && is_state_change_event(
                events@[0],
                old(self).state,
                new_state,
            ),
    {
        if self.state != new_state {
            let old_state = self.state;
            self.state = new_state;
            let ev = self.make_state_change_event(old_state, new_state);
            let mut events: Vec<Event> = Vec::new();
            events.push(ev);
            events
        } else {
            Vec::new()
        }
    }

    fn make_error_event(&self, error: &str, timestamp: i64) -> (e: Event)
        ensures
            is_error_event(e, error@, self.metrics),
    {
        let mut mp: Vec<(String, JsonValue)> = Vec::new();
        mp.push((
            String::from_str("connection_attempts"),
            JsonValue::Int(self.metrics.connection_attempts as i64),
        ));
        mp.push((
            String::from_str("successful_connections"),
            JsonValue::Int(self.metrics.successful_connections as i64),
        ));
        mp.push((
            String::from_str("failed_connections"),
            JsonValue::Int(self.metrics.failed_connections as i64),
        ));
        mp.push((
            String::from_str("messages_sent"),
            JsonValue::Int(self.metrics.messages_sent as i64),
        ));
        mp.push((
            String::from_str("messages_received"),
            JsonValue::Int(self.metrics.messages_received as i64),
        ));
        mp.push((String::from_str("bytes_sent"), JsonValue::Int(self.metrics.bytes_sent as i64)));
        mp.push((
            String::from_str("bytes_received"),
            JsonValue::Int(self.metrics.bytes_received as i64),
        ));
        mp.push((
            String::from_str("uptime_seconds"),
            JsonValue::Int(self.metrics.uptime_seconds as i64),
        ));
        let mut pairs: Vec<(String, JsonValue)> = Vec::new();
        pairs.push((String::from_str("error"), JsonValue::Str(error.to_owned())));
        pairs.push((String::from_str("timestamp"), JsonValue::Int(timestamp)));
        pairs.push((String::from_str("metrics"), JsonValue::Obj(mp)));
        let payload = JsonValue::Obj(pairs);
        Event::new(
            EventType::Custom { name: String::from_str("websocket.error"), payload },
            "websocket_manager",
        )
    }

    /// Records one error: remembers it as the latest error, appends it
    /// to the bounded error log (evicting the oldest entry past the
    /// bound), and hands back exactly one error record carrying a
    /// snapshot of the counters.
    pub fn record_error(&mut self, error: &str) -> (events: Vec<Event>)
        requires
            old(self).wf(),
        ensures
            final(self).wf(),
            final(self).state == old(self).state,
            final(self).current_reconnect_attempt == old(self).current_reconnect_attempt,
            final(self).metrics.connection_attempts == old(self).metrics.connection_attempts,
            final(self).metrics.successful_connections == old(
                self,
            ).metrics.successful_connections,
            final(self).metrics.failed_connections == old(self).metrics.failed_connections,
            final(self).metrics.messages_sent == old(self).metrics.messages_sent,
            final(self).metrics.messages_received == old(self).metrics.messages_received,
            final(self).metrics.bytes_sent == old(self).metrics.bytes_sent,
            final(self).metrics.bytes_received == old(self).metrics.bytes_received,
            final(self).metrics.uptime_seconds == old(self).metrics.uptime_seconds,
            final(self).metrics.reconnect_count == old(self).metrics.reconnect_count,
            final(self).metrics.connection_duration_ms == old(self).metrics.connection_duration_ms,
            final(self).metrics.last_error matches Some(s) && s@ == error@,
            final(self).metrics.last_error_time is Some,
            final(self).max_reconnect_attempts == old(self).max_reconnect_attempts,
            final(self).reconnect_interval_ms == old(self).reconnect_interval_ms,
            final(self).is_running == old(self).is_running,
            final(self).connection_start_time_ms == old(self).connection_start_time_ms,
            final(self).max_error_log_size == old(self).max_error_log_size,
            final(self).error_log@.len() == if old(self).error_log@.len() < old(
                self,
            ).max_error_log_size {
                old(self).error_log@.len() + 1int
            } else {
                old(self).max_error_log_size as int
            },
            final(self).error_log@.last().1@ == error@,
            old(self).error_log@.len() < old(self).max_error_log_size
                ==> final(self).error_log@.drop_last() == old(self).error_log@,
            old(self).error_log@.len() == old(self).max_error_log_size
                ==> final(self).error_log@.drop_last() == old(self).error_log@.drop_first(),
            events@.len() == 1,
            is_error_event(events@[0], error@, final(self).metrics),
    {
        let timestamp = now_millis();
        let ts: u64 = if timestamp >= 0 {
            timestamp as u64
        } else {
            0
        };
        self.metrics.last_error = Some(error.to_owned());
        self.metrics.last_error_time = Some(ts);
        self.error_log.push((ts, error.to_owned()));
        if self.error_log.len() > self.max_error_log_size {
            self.error_log.remove(0);
        }
        let ev = self.make_error_event(error, timestamp);
        let mut events: Vec<Event> = Vec::new();
        events.push(ev);
        events
    }

    /// Books one successful attempt: counts it, clears the retry
    /// counter, remembers when the connection began, and moves to
    /// Connected. The records to emit are handed back.
    pub fn handle_connection_success(&mut self) -> (events: Vec<Event>)
        requires
            old(self).wf(),
            old(self).metrics.connection_attempts < u32::MAX,
        ensures
            final(self).wf(),
            final(self).state == WebSocketState::Connected,
            final(self).metrics.connection_attempts == old(self).metrics.connection_attempts + 1,
            final(self).metrics.successful_connections == old(
                self,
            ).metrics.successful_connections + 1,
            final(self).metrics.failed_connections == old(self).metrics.failed_connections,
            final(self).current_reconnect_attempt == 0,
            final(self).connection_start_time_ms is Some,
            final(self).error_log == old(self).error_log,
            old(self).state == WebSocketState::Connected ==> events@.len() == 0,
            old(self).state != WebSocketState::Connected ==> events@.len() == 1
                && is_state_change_event(events@[0], old(self).state, WebSocketState::Connected),
    {
        self.metrics.connection_attempts = self.metrics.connection_attempts + 1;
        self.metrics.successful_connections = self.metrics.successful_connections + 1;
        self.current_reconnect_attempt = 0;
        self.connection_start_time_ms = Some(now_millis());
        self.set_state(WebSocketState::Connected)
    }

    /// Books one failed attempt: counts it, records the error, spends
    /// one retry, and moves to Reconnecting while retries remain, or to
    /// Failed once `max_reconnect_attempts` is reached. The records to
    /// emit are handed back: the error record first, then the
    /// state-change record if the state changed.
    pub fn handle_connection_failure(&mut self, error: &str) -> (events: Vec<Event>)
        requires
            old(self).wf(),
            old(self).metrics.connection_attempts < u32::MAX,
            old(self).metrics.reconnect_count < u32::MAX,
            old(self).current_reconnect_attempt < u32::MAX,
        ensures
            final(self).wf(),
            final(self).state == failure_next_state(
                (old(self).current_reconnect_attempt + 1) as u32,
                old(self).max_reconnect_attempts,
            ),
            final(self).metrics.connection_attempts == old(self).metrics.connection_attempts + 1,
            final(self).metrics.failed_connections == old(self).metrics.failed_connections + 1,
            final(self).metrics.successful_connections == old(
                self,
            ).metrics.successful_connections,
            final(self).metrics.reconnect_count == old(self).metrics.reconnect_count + 1,
            final(self).current_reconnect_attempt == old(self).current_reconnect_attempt + 1,
            final(self).metrics.last_error matches Some(s) && s@ == error@,
            events@.len() == if old(self).state == failure_next_state(
                (old(self).current_reconnect_attempt + 1) as u32,
                old(self).max_reconnect_attempts,
            ) {
                1int
            } else {
                2int
            },
            is_error_event(
                events@[0],
                error@,
                final(self).metrics,
            ),
            old(self).state != failure_next_state(
                (old(self).current_reconnect_attempt + 1) as u32,
                old(self).max_reconnect_attempts,
            ) ==> is_state_change_event(
                events@[1],
                old(self).state,
                failure_next_state(
                    (old(self).current_reconnect_attempt + 1) as u32,
                    old(self).max_reconnect_attempts,
                ),
            ),
    {
        self.metrics.connection_attempts = self.metrics.connection_attempts + 1;
        self.metrics.failed_connections = self.metrics.failed_connections + 1;
        self.current_reconnect_attempt = self.current_reconnect_attempt + 1;
        self.metrics.reconnect_count = self.metrics.reconnect_count + 1;
        let mut events = self.record_error(error);
        let mut state_events = if self.current_reconnect_attempt >= self.max_reconnect_attempts {
            self.set_state(WebSocketState::Failed)
        } else {
            self.set_state(WebSocketState::Reconnecting)
        };
        events.append(&mut state_events);
        events
    }

    /// From Reconnecting, begins the next attempt: moves to Connecting
    /// and hands back its state-change record. The waiting and the
    /// attempt itself are the runtime's work; its outcome comes back
    /// through `handle_connection_success` or `handle_connection_failure`.
    /// In any other state, nothing happens.
    pub fn attempt_reconnect(&mut self) -> (events: Vec<Event>)
        ensures
            final(self).metrics == old(self).metrics,
            final(self).current_reconnect_attempt == old(self).current_reconnect_attempt,
            final(self).error_log == old(self).error_log,
            old(self).state == WebSocketState::Reconnecting ==> final(self).state
                == WebSocketState::Connecting && events@.len() == 1 && is_state_change_event(
                events@[0],
                WebSocketState::Reconnecting,
                WebSocketState::Connecting,
            ),
            old(self).state != WebSocketState::Reconnecting ==> final(self).state == old(
                self,
            ).state && events@.len() == 0,
    {
        if self.get_state() == WebSocketState::Reconnecting {
            self.set_state(WebSocketState::Connecting)
        } else {
            Vec::new()
        }
    }

    /// Moves to Disconnected on explicit request, handing back the
    /// state-change record if the state changed.
    pub fn disconnect(&mut self) -> (events: Vec<Event>)
        ensures
            final(self).state == WebSocketState::Disconnected,
            final(self).metrics == old(self).metrics,
            final(self).error_log == old(self).error_log,
            old(self).state == WebSocketState::Disconnected ==> events@.len() == 0,
            old(self).state != WebSocketState::Disconnected ==> events@.len() == 1
                && is_state_change_event(
                events@[0],
                old(self).state,
                WebSocketState::Disconnected,
            ),
    {
        self.set_state(WebSocketState::Disconnected)
    }

    /// Counts one sent message of the given size.
    pub fn increment_message_sent(&mut self, bytes: usize)
        requires
            old(self).metrics.messages_sent < u64::MAX,
            old(self).metrics.bytes_sent + bytes <= u64::MAX,
        ensures
            final(self).metrics.messages_sent == old(self).metrics.messages_sent + 1,
            final(self).metrics.bytes_sent == old(self).metrics.bytes_sent + bytes,
            final(self).metrics.messages_received == old(self).metrics.messages_received,
            final(self).metrics.bytes_received == old(self).metrics.bytes_received,
            final(self).metrics.connection_attempts == old(self).metrics.connection_attempts,
            final(self).metrics.successful_connections == old(
                self,
            ).metrics.successful_connections,
            final(self).metrics.failed_connections == old(self).metrics.failed_connections,
            final(self).state == old(self).state,
            final(self).error_log == old(self).error_log,
    {
        self.metrics.messages_sent = self.metrics.messages_sent + 1;
        self.metrics.bytes_sent = self.metrics.bytes_sent + (bytes as u64);
    }

    /// Counts one received message of the given size.
    pub fn increment_message_received(&mut self, bytes: usize)
        requires
            old(self).metrics.messages_received < u64::MAX,
            old(self).metrics.bytes_received + bytes <= u64::MAX,
        ensures
            final(self).metrics.messages_received == old(self).metrics.messages_received + 1,
            final(self).metrics.bytes_received == old(self).metrics.bytes_received + bytes,
            final(self).metrics.messages_sent == old(self).metrics.messages_sent,
            final(self).metrics.bytes_sent == old(self).metrics.bytes_sent,
            final(self).metrics.connection_attempts == old(self).metrics.connection_attempts,
            final(self).metrics.successful_connections == old(
                self,
            ).metrics.successful_connections,
            final(self).metrics.failed_connections == old(self).metrics.failed_connections,
            final(self).state == old(self).state,
            final(self).error_log == old(self).error_log,
    {
        self.metrics.messages_received = self.metrics.messages_received + 1;
        self.metrics.bytes_received = self.metrics.bytes_received + (bytes as u64);
    }

    /// Zeroes every counter and clears the latest-error fields. The
    /// error log itself is kept.
    pub fn reset_metrics(&mut self)
        requires
            old(self).wf(),
        ensures
            final(self).wf(),
            metrics_zero(final(self).metrics),
            final(self).state == old(self).state,
            final(self).current_reconnect_attempt == old(self).current_reconnect_attempt,
            final(self).error_log == old(self).error_log,
            final(self).max_error_log_size == old(self).max_error_log_size,
    {
        self.metrics = WebSocketMetrics {
            connection_attempts: 0,
            successful_connections: 0,
            failed_connections: 0,
            messages_sent: 0,
            messages_received: 0,
            bytes_sent: 0,
            bytes_received: 0,
            last_error: None,
            last_error_time: None,
            uptime_seconds: 0,
            connection_duration_ms: None,
            reconnect_count: 0,
        };
    }

    /// Marks the periodic monitor as running; the runtime drives it by
    /// calling `monitor_tick` once a second until `stop_monitoring`.
    pub fn start_monitoring(&mut self)
        ensures
            final(self).is_running,
            final(self).state == old(self).state,
            final(self).metrics == old(self).metrics,
            final(self).error_log == old(self).error_log,
    {
        self.is_running = true;
    }

    /// Marks the periodic monitor as stopped.
    pub fn stop_monitoring(&mut self)
        ensures
            !final(self).is_running,
            final(self).state == old(self).state,
            final(self).metrics == old(self).metrics,
            final(self).error_log == old(self).error_log,
    {
        self.is_running = false;
    }

    /// One second of monitoring: counts the uptime, and while connected
    /// keeps the connection duration current.
    pub fn monitor_tick(&mut self)
        requires
            old(self).metrics.uptime_seconds < u64::MAX,
        ensures
            final(self).metrics.uptime_seconds == old(self).metrics.uptime_seconds + 1,
            final(self).state == old(self).state,
            final(self).metrics.connection_attempts == old(self).metrics.connection_attempts,
            final(self).metrics.successful_connections == old(
                self,
            ).metrics.successful_connections,
            final(self).metrics.failed_connections == old(self).metrics.failed_connections,
            final(self).error_log == old(self).error_log,
            old(self).state == WebSocketState::Connected && old(
                self,
            ).connection_start_time_ms is Some ==> final(self).metrics.connection_duration_ms
                is Some,
            !(old(self).state == WebSocketState::Connected && old(
                self,
            ).connection_start_time_ms is Some) ==> final(self).metrics.connection_duration_ms
                == old(self).metrics.connection_duration_ms,
    {
        self.metrics.uptime_seconds = self.metrics.uptime_seconds + 1;
        if self.state == WebSocketState::Connected {
            match self.connection_start_time_ms {
                Some(start) => {
                    let now = now_millis();
                    let span: i128 = (now as i128) - (start as i128);
                    let elapsed: u64 = if span <= 0 {
                        0
                    } else if span > (u64::MAX as i128) {
                        u64::MAX
                    } else {
                        span as u64
                    };
                    self.metrics.connection_duration_ms = Some(elapsed);
                },
                None => {},
            }
        }
    }
}

/// **Law (metrics monotonicity)**: in every reachable state of the
/// manager the attempt counter equals the successes plus the failures;
/// each operation preserves this balance, and `reset_metrics`
/// re-establishes it at zero.
pub proof fn lemma_metrics_balance(m: WebSocketManager)
    requires
        m.wf(),
    ensures
        m.metrics.connection_attempts == m.metrics.successful_connections
            + m.metrics.failed_connections,
{
}

impl Default for WebSocketManager {
    /// The default manager is a fresh one.
    fn default() -> (m: Self)
        ensures
            m.wf(),
            m.state == WebSocketState::Disconnected,
            metrics_zero(m.metrics),
    {
        Self::new()
    }
}

} // verus!

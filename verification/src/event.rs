//! The data model of one occurrence flowing through the bus: its kind
//! taxonomy, priority, and the record itself with its builder methods.

use vstd::prelude::*;

use crate::clock::now_millis;
use crate::ids::fresh_id;
use crate::json_value::JsonValue;
use crate::json_value::clone_json_vec;
use crate::json_value::json_eq;

verus! {

/// Carried on every record; not used to reorder dispatch.
#[derive(Debug, Clone, Copy, PartialEq, Eq, Structural)]
pub enum EventPriority {
    Low,
    Normal,
    High,
    Critical,
}

impl Default for EventPriority {
    /// The default priority is Normal.
    fn default() -> (r: Self)
        ensures
            r == EventPriority::Normal,
    {
        EventPriority::Normal
    }
}

/// A selection of records by origin and priority.
#[derive(Debug)]
pub struct EventFilter {
    pub source: Option<String>,
    pub priority: Option<EventPriority>,
}

impl Clone for EventFilter {
    /// A clone is equal to the original.
    fn clone(&self) -> (res: Self)
        ensures
            res == *self,
    {
        EventFilter {
            source: match &self.source {
                Some(s) => Some(s.clone()),
                None => None,
            },
            priority: self.priority,
        }
    }
}

/// The tagged kind of an occurrence. Build progress is carried as a whole
/// percentage.
#[derive(Debug)]
pub enum EventType {
    CounterIncrement,
    CounterReset,
    CounterValueChanged { value: i32 },
    DatabaseConnected,
    DatabaseDisconnected,
    UsersFetched { count: usize, users: Vec<JsonValue> },
    UserAdded { id: i32, name: String },
    UserUpdated { id: i32, name: String },
    UserDeleted { id: i32 },
    SystemInfoRequested,
    SystemInfoReceived { cpu: String, memory: String, os: String },
    WebUIConnected,
    WebUIReady,
    WebUIDisconnected,
    BuildStarted { build_id: String },
    BuildProgress { build_id: String, step: String, progress: u32 },
    BuildCompleted { build_id: String, success: bool, duration_ms: u64 },
    Custom { name: String, payload: JsonValue },
}

/// Structural equality of two kinds: the same variant, with equal plain
/// fields, strings compared by their characters, and payloads compared
/// structurally.
pub open spec fn event_type_eq(a: EventType, b: EventType) -> bool {
    match (a, b) {
        (EventType::CounterIncrement, EventType::CounterIncrement) => true,
        (EventType::CounterReset, EventType::CounterReset) => true,
        (
            EventType::CounterValueChanged { value: v1 },
            EventType::CounterValueChanged { value: v2 },
        ) => v1 == v2,
        (EventType::DatabaseConnected, EventType::DatabaseConnected) => true,
        (EventType::DatabaseDisconnected, EventType::DatabaseDisconnected) => true,
        (
            EventType::UsersFetched { count: c1, users: u1 },
            EventType::UsersFetched { count: c2, users: u2 },
        ) => c1 == c2 && u1@.len() == u2@.len() && (forall|i: int|
            0 <= i < u1@.len() ==> json_eq(u1@[i], u2@[i])),
        (EventType::UserAdded { id: i1, name: n1 }, EventType::UserAdded { id: i2, name: n2 }) => i1
            == i2 && n1@ == n2@,
        (
            EventType::UserUpdated { id: i1, name: n1 },
            EventType::UserUpdated { id: i2, name: n2 },
        ) => i1 == i2 && n1@ == n2@,
        (EventType::UserDeleted { id: i1 }, EventType::UserDeleted { id: i2 }) => i1 == i2,
        (EventType::SystemInfoRequested, EventType::SystemInfoRequested) => true,
        (
            EventType::SystemInfoReceived { cpu: c1, memory: m1, os: o1 },
            EventType::SystemInfoReceived { cpu: c2, memory: m2, os: o2 },
        ) => c1@ == c2@ && m1@ == m2@ && o1@ == o2@,
        (EventType::WebUIConnected, EventType::WebUIConnected) => true,
        (EventType::WebUIReady, EventType::WebUIReady) => true,
        (EventType::WebUIDisconnected, EventType::WebUIDisconnected) => true,
        (
            EventType::BuildStarted { build_id: b1 },
            EventType::BuildStarted { build_id: b2 },
        ) => b1@ == b2@,
        (
            EventType::BuildProgress { build_id: b1, step: s1, progress: p1 },
            EventType::BuildProgress { build_id: b2, step: s2, progress: p2 },
        ) => b1@ == b2@ && s1@ == s2@ && p1 == p2,
        (
            EventType::BuildCompleted { build_id: b1, success: s1, duration_ms: d1 },
            EventType::BuildCompleted { build_id: b2, success: s2, duration_ms: d2 },
        ) => b1@ == b2@ && s1 == s2 && d1 == d2,
        (
            EventType::Custom { name: n1, payload: p1 },
            EventType::Custom { name: n2, payload: p2 },
        ) => n1@ == n2@ && json_eq(p1, p2),
        _ => false,
    }
}

impl Clone for EventType {
    /// A clone is structurally equal to the original.
    fn clone(&self) -> (res: Self)
        ensures
            event_type_eq(*self, res),
    {
        match self {
            EventType::CounterIncrement => EventType::CounterIncrement,
            EventType::CounterReset => EventType::CounterReset,
            EventType::CounterValueChanged { value } => EventType::CounterValueChanged {
                value: *value,
            },
            EventType::DatabaseConnected => EventType::DatabaseConnected,
            EventType::DatabaseDisconnected => EventType::DatabaseDisconnected,
            EventType::UsersFetched { count, users } => {
                let out = clone_json_vec(users);
                EventType::UsersFetched { count: *count, users: out }
            },
            EventType::UserAdded { id, name } => EventType::UserAdded {
                id: *id,
                name: name.clone(),
            },
            EventType::UserUpdated { id, name } => EventType::UserUpdated {
                id: *id,
                name: name.clone(),
            },
            EventType::UserDeleted { id } => EventType::UserDeleted { id: *id },
            EventType::SystemInfoRequested => EventType::SystemInfoRequested,
            EventType::SystemInfoReceived { cpu, memory, os } => EventType::SystemInfoReceived {
                cpu: cpu.clone(),
                memory: memory.clone(),
                os: os.clone(),
            },
            EventType::WebUIConnected => EventType::WebUIConnected,
            EventType::WebUIReady => EventType::WebUIReady,
            EventType::WebUIDisconnected => EventType::WebUIDisconnected,
            EventType::BuildStarted { build_id } => EventType::BuildStarted {
                build_id: build_id.clone(),
            },
            EventType::BuildProgress { build_id, step, progress } => EventType::BuildProgress {
                build_id: build_id.clone(),
                step: step.clone(),
                progress: *progress,
            },
            EventType::BuildCompleted { build_id, success, duration_ms } => {
                EventType::BuildCompleted {
                    build_id: build_id.clone(),
                    success: *success,
                    duration_ms: *duration_ms,
                }
            },
            EventType::Custom { name, payload } => EventType::Custom {
                name: name.clone(),
                payload: payload.clone(),
            },
        }
    }
}

/// The topic name derived from a kind: a fixed dot-separated name for each
/// well-known kind, and the carried name for a custom kind.
pub open spec fn spec_event_name(t: EventType) -> Seq<char> {
    match t {
        EventType::CounterIncrement => "counter.increment"@,
        EventType::CounterReset => "counter.reset"@,
        EventType::CounterValueChanged { .. } => "counter.value_changed"@,
        EventType::DatabaseConnected => "database.connected"@,
        EventType::DatabaseDisconnected => "database.disconnected"@,
        EventType::UsersFetched { .. } => "database.users_fetched"@,
        EventType::UserAdded { .. } => "database.user_added"@,
        EventType::UserUpdated { .. } => "database.user_updated"@,
        EventType::UserDeleted { .. } => "database.user_deleted"@,
        EventType::SystemInfoRequested => "system.info_requested"@,
        EventType::SystemInfoReceived { .. } => "system.info_received"@,
        EventType::WebUIConnected => "webui.connected"@,
        EventType::WebUIReady => "webui.ready"@,
        EventType::WebUIDisconnected => "webui.disconnected"@,
        EventType::BuildStarted { .. } => "build.started"@,
        EventType::BuildProgress { .. } => "build.progress"@,
        EventType::BuildCompleted { .. } => "build.completed"@,
        EventType::Custom { name, .. } => name@,
    }
}

/// One immutable occurrence description. History holds exact snapshots;
/// nothing mutates a stored record.
#[derive(Debug)]
pub struct Event {
    pub id: String,
    pub name: String,
    pub event_type: EventType,
    pub timestamp: i64,
    pub source: String,
    pub target: Option<String>,
    pub priority: EventPriority,
    pub metadata: Vec<(String, JsonValue)>,
    pub correlation_id: Option<String>,
    pub reply_to: Option<String>,
}

impl Event {
    /// A fresh record of the given kind: the name is derived from the
    /// kind, the identifier is freshly drawn, the timestamp is the clock
    /// reading at construction, and every optional field starts empty.
    pub fn new(event_type: EventType, source: &str) -> (e: Event)
        ensures
            e.name@ == spec_event_name(e.event_type),
            e.event_type == event_type,
            e.source@ == source@,
            e.target is None,
            e.priority == EventPriority::Normal,
            e.metadata@ == Seq::<(String, JsonValue)>::empty(),
            e.correlation_id is None,
            e.reply_to is None,
            e.id@.len() == 36,
    {
        let name = event_name(&event_type);
        Event {
            id: fresh_id(),
            name,
            event_type,
            timestamp: now_millis(),
            source: source.to_owned(),
            target: None,
            priority: EventPriority::Normal,
            metadata: Vec::new(),
            correlation_id: None,
            reply_to: None,
        }
    }

    /// Overrides the derived name; every other field is kept.
    pub fn with_name(self, name: &str) -> (e: Event)
        ensures
            e.name@ == name@,
            e.id == self.id,
            e.event_type == self.event_type,
            e.timestamp == self.timestamp,
            e.source == self.source,
            e.target == self.target,
            e.priority == self.priority,
            e.metadata == self.metadata,
            e.correlation_id == self.correlation_id,
            e.reply_to == self.reply_to,
    {
        Event { name: name.to_owned(), ..self }
    }

    /// Sets the advisory recipient hint; every other field is kept.
    pub fn with_target(self, target: &str) -> (e: Event)
        ensures
            e.target matches Some(t) && t@ == target@,
            e.id == self.id,
            e.name == self.name,
            e.event_type == self.event_type,
            e.timestamp == self.timestamp,
            e.source == self.source,
            e.priority == self.priority,
            e.metadata == self.metadata,
            e.correlation_id == self.correlation_id,
            e.reply_to == self.reply_to,
    {
        Event { target: Some(target.to_owned()), ..self }
    }

    /// Sets the priority; every other field is kept.
    pub fn with_priority(self, priority: EventPriority) -> (e: Event)
        ensures
            e.priority == priority,
            e.id == self.id,
            e.name == self.name,
            e.event_type == self.event_type,
            e.timestamp == self.timestamp,
            e.source == self.source,
            e.target == self.target,
            e.metadata == self.metadata,
            e.correlation_id == self.correlation_id,
            e.reply_to == self.reply_to,
    {
        Event { priority, ..self }
    }

    /// Appends one metadata pair; every other field is kept.
    pub fn with_metadata(self, key: String, value: JsonValue) -> (e: Event)
        ensures
            e.metadata@ == self.metadata@.push((key, value)),
            e.id == self.id,
            e.name == self.name,
            e.event_type == self.event_type,
            e.timestamp == self.timestamp,
            e.source == self.source,
            e.target == self.target,
            e.priority == self.priority,
            e.correlation_id == self.correlation_id,
            e.reply_to == self.reply_to,
    {
        let mut metadata = self.metadata;
        metadata.push((key, value));
        Event { metadata, ..self }
    }

    /// Sets the correlation identifier; every other field is kept.
    pub fn with_correlation_id(self, correlation_id: &str) -> (e: Event)
        ensures
            e.correlation_id matches Some(c) && c@ == correlation_id@,
            e.id == self.id,
            e.name == self.name,
            e.event_type == self.event_type,
            e.timestamp == self.timestamp,
            e.source == self.source,
            e.target == self.target,
            e.priority == self.priority,
            e.metadata == self.metadata,
            e.reply_to == self.reply_to,
    {
        Event { correlation_id: Some(correlation_id.to_owned()), ..self }
    }

    /// Sets the reply-to hint; every other field is kept.
    pub fn with_reply_to(self, reply_to: &str) -> (e: Event)
        ensures
            e.reply_to matches Some(r2) && r2@ == reply_to@,
            e.id == self.id,
            e.name == self.name,
            e.event_type == self.event_type,
            e.timestamp == self.timestamp,
            e.source == self.source,
            e.target == self.target,
            e.priority == self.priority,
            e.metadata == self.metadata,
            e.correlation_id == self.correlation_id,
    {
        Event { reply_to: Some(reply_to.to_owned()), ..self }
    }
}

/// The executable form of the name derivation.
fn event_name(event_type: &EventType) -> (r: String)
    ensures
        r@ == spec_event_name(*event_type),
{
    match event_type {
        EventType::CounterIncrement => String::from_str("counter.increment"),
        EventType::CounterReset => String::from_str("counter.reset"),
        EventType::CounterValueChanged { .. } => String::from_str("counter.value_changed"),
        EventType::DatabaseConnected => String::from_str("database.connected"),
        EventType::DatabaseDisconnected => String::from_str("database.disconnected"),
        EventType::UsersFetched { .. } => String::from_str("database.users_fetched"),
        EventType::UserAdded { .. } => String::from_str("database.user_added"),
        EventType::UserUpdated { .. } => String::from_str("database.user_updated"),
        EventType::UserDeleted { .. } => String::from_str("database.user_deleted"),
        EventType::SystemInfoRequested => String::from_str("system.info_requested"),
        EventType::SystemInfoReceived { .. } => String::from_str("system.info_received"),
        EventType::WebUIConnected => String::from_str("webui.connected"),
        EventType::WebUIReady => String::from_str("webui.ready"),
        EventType::WebUIDisconnected => String::from_str("webui.disconnected"),
        EventType::BuildStarted { .. } => String::from_str("build.started"),
        EventType::BuildProgress { .. } => String::from_str("build.progress"),
        EventType::BuildCompleted { .. } => String::from_str("build.completed"),
        EventType::Custom { name, .. } => name.clone(),
    }
}

/// Structural equality of two records: every field equal, with strings
/// compared by their characters and payloads compared structurally.
pub open spec fn event_eq(a: Event, b: Event) -> bool {
    &&& a.id@ == b.id@
    &&& a.name@ == b.name@
    &&& event_type_eq(a.event_type, b.event_type)
    &&& a.timestamp == b.timestamp
    &&& a.source@ == b.source@
    &&& a.target == b.target
    &&& a.priority == b.priority
    &&& a.metadata@.len() == b.metadata@.len()
    &&& (forall|i: int|
        0 <= i < a.metadata@.len() ==> a.metadata@[i].0@ == b.metadata@[i].0@ && json_eq(
            a.metadata@[i].1,
            b.metadata@[i].1,
        ))
    &&& a.correlation_id == b.correlation_id
    &&& a.reply_to == b.reply_to
}

impl Clone for Event {
    /// A clone is structurally equal to the original, field by field.
    fn clone(&self) -> (res: Self)
        ensures
            event_eq(*self, res),
    {
        let mut metadata: Vec<(String, JsonValue)> = Vec::new();
        let mut idx: usize = 0;
        while idx < self.metadata.len()
            invariant
                idx <= self.metadata.len(),
                metadata@.len() == idx,
                forall|j: int|
                    0 <= j < idx ==> metadata@[j].0@ == self.metadata@[j].0@ && json_eq(
                        self.metadata@[j].1,
                        metadata@[j].1,
                    ),
            decreases self.metadata.len() - idx,
        {
            let pair = &self.metadata[idx];
            metadata.push((pair.0.clone(), pair.1.clone()));
            idx += 1;
        }
        Event {
            id: self.id.clone(),
            name: self.name.clone(),
            event_type: self.event_type.clone(),
            timestamp: self.timestamp,
            source: self.source.clone(),
            target: match &self.target {
                Some(t) => Some(t.clone()),
                None => None,
            },
            priority: self.priority,
            metadata,
            correlation_id: match &self.correlation_id {
                Some(c) => Some(c.clone()),
                None => None,
            },
            reply_to: match &self.reply_to {
                Some(r) => Some(r.clone()),
                None => None,
            },
        }
    }
}

/// A registration record: the identifier handed back by subscribe, the
/// pattern it listens on, and its advisory priority.
#[derive(Debug)]
pub struct Subscription {
    pub id: String,
    pub pattern: String,
    pub priority: i32,
}

} // verus!

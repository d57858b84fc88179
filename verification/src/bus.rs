//! The central registry of the shell: pattern subscriptions, broadcast
//! fan-out, bounded event history, and the emit pipeline.
//!
//! The bus is generic over the listener capability `L`. Registering a
//! listener stores it beside its pattern; `emit` appends the record to
//! the bounded history, hands a copy to the broadcast channel, and
//! returns the identifiers of every subscription whose pattern matches
//! the record's name, in registration order. The caller dispatches to
//! those listeners concurrently; a listener failure never reaches the
//! emitter, because emit's outcome is fixed before any listener runs.

use vstd::prelude::*;

use crate::event::Event;
use crate::event::EventType;
use crate::event::event_eq;
use crate::event::spec_event_name;
use crate::ids::fresh_id;
use crate::json_value::JsonValue;
use crate::pattern::match_pattern;
use crate::pattern::spec_match;
use crate::text::str_eq;

verus! {

#[verifier::external_type_specification]
#[verifier::external_body]
#[verifier::reject_recursive_types(T)]
pub struct ExSender<T>(tokio::sync::broadcast::Sender<T>);

#[verifier::external_type_specification]
#[verifier::external_body]
#[verifier::reject_recursive_types(T)]
pub struct ExReceiver<T>(tokio::sync::broadcast::Receiver<T>);

/// Relies on tokio::sync::broadcast::channel: a fresh channel with the
/// given capacity; the initial receiver is dropped, as passive readers
/// attach later through the sender. The call panics outside the given
/// capacity bounds.
#[verifier::external_body]
fn broadcast_channel(capacity: usize) -> tokio::sync::broadcast::Sender<Event>
    requires
        1 <= capacity <= usize::MAX / 2,
{
    let (tx, _rx) = tokio::sync::broadcast::channel(capacity);
    tx
}

/// Relies on tokio Sender::send: hands one value to the receivers that
/// exist at the call; with none, the value is dropped and the send
/// reports failure, which the bus deliberately ignores. Whether delivery
/// happened depends on the receivers alone.
#[verifier::external_body]
fn broadcast_send(tx: &tokio::sync::broadcast::Sender<Event>, event: Event) -> bool {
    tx.send(event).is_ok()
}

/// Errors of the bus itself. The only failure the interface admits is a
/// transport-level one, and the lossy broadcast send never raises it.
#[derive(Debug, Clone, Copy, PartialEq, Eq, Structural)]
pub enum BusError {
    Transport,
}

/// One registered subscription: the identifier handed to the caller, the
/// pattern it listens on, and the stored listener capability.
pub struct Registration<L> {
    pub id: String,
    pub pattern: String,
    pub listener: L,
}

/// The identifiers of the registrations whose pattern matches `name`, in
/// registration order.
pub open spec fn dispatch_ids<L>(subs: Seq<Registration<L>>, name: Seq<char>) -> Seq<Seq<char>>
    decreases subs.len(),
{
    if subs.len() == 0 {
        Seq::empty()
    } else {
        let rest = dispatch_ids(subs.drop_last(), name);
        if spec_match(subs.last().pattern@, name) {
            rest.push(subs.last().id@)
        } else {
            rest
        }
    }
}

/// The index of the first registration carrying `id`, or -1 when none
/// does.
pub open spec fn find_id<L>(subs: Seq<Registration<L>>, id: Seq<char>) -> int
    decreases subs.len(),
{
    if subs.len() == 0 {
        -1
    } else if subs[0].id@ == id {
        0
    } else {
        let rest = find_id(subs.drop_first(), id);
        if rest == -1 {
            -1
        } else {
            rest + 1
        }
    }
}

/// One step of the history: append at the tail, evict the oldest entry
/// once the capacity is exceeded.
pub open spec fn push_evict(h: Seq<Event>, e: Event, cap: nat) -> Seq<Event> {
    let grown = h.push(e);
    if grown.len() > cap {
        grown.drop_first()
    } else {
        grown
    }
}

/// The complete outcome of one emit call: the subscriptions, capacity
/// and channel are untouched, the history took one push-evict step with
/// the record `e`, and the call returned the matching identifiers.
pub open spec fn emitted<L>(
    pre: EventBus<L>,
    post: EventBus<L>,
    r: Result<Vec<String>, BusError>,
    e: Event,
) -> bool {
    &&& post.subs == pre.subs
    &&& post.max_history_size == pre.max_history_size
    &&& post.broadcast_tx == pre.broadcast_tx
    &&& post.event_history@ == push_evict(pre.event_history@, e, pre.max_history_size as nat)
    &&& r matches Ok(ids) && ids.deep_view() == dispatch_ids(pre.subs@, e.name@)
}

/// The central registry: subscriptions, broadcast fan-out, and bounded
/// history.
pub struct EventBus<L> {
    pub subs: Vec<Registration<L>>,
    pub broadcast_tx: tokio::sync::broadcast::Sender<Event>,
    pub event_history: Vec<Event>,
    pub max_history_size: usize,
}

impl<L> EventBus<L> {
    /// The history never holds more than its capacity, and the capacity
    /// is positive.
    pub open spec fn wf(&self) -> bool {
        &&& self.max_history_size >= 1
        &&& self.event_history@.len() <= self.max_history_size
    }

    /// A fresh bus: no subscriptions, empty history, capacity 1000, and
    /// a broadcast channel of capacity 256.
    pub fn new() -> (bus: EventBus<L>)
        ensures
            bus.wf(),
            bus.subs@.len() == 0,
            bus.event_history@.len() == 0,
            bus.max_history_size == 1000,
    {
        EventBus {
            subs: Vec::new(),
            broadcast_tx: broadcast_channel(256),
            event_history: Vec::new(),
            max_history_size: 1000,
        }
    }

    /// Registers `listener` under `pattern` and returns the fresh
    /// subscription identifier. The registration is appended; every
    /// earlier registration is kept, and nothing else changes.
    pub fn subscribe(&mut self, pattern: &str, listener: L) -> (id: String)
        ensures
            final(self).subs@.len() == old(self).subs@.len() + 1,
            final(self).subs@.drop_last() == old(self).subs@,
            final(self).subs@.last().pattern@ == pattern@,
            final(self).subs@.last().id@ == id@,
            final(self).subs@.last().listener == listener,
            id@.len() == 36,
            final(self).event_history == old(self).event_history,
            final(self).max_history_size == old(self).max_history_size,
            final(self).broadcast_tx == old(self).broadcast_tx,
    {
        let id = fresh_id();
        let stored = id.clone();
        self.subs.push(Registration { id: stored, pattern: pattern.to_owned(), listener });
        proof {
            assert(final(self).subs@.drop_last() =~= old(self).subs@);
        }
        id
    }

    /// Removes the first registration carrying `subscription_id` and
    /// reports whether one was found; an unknown identifier changes
    /// nothing. Unsubscribing the same identifier a second time finds
    /// nothing more.
    pub fn unsubscribe(&mut self, subscription_id: &str) -> (r: bool)
        ensures
            r == (find_id(old(self).subs@, subscription_id@) >= 0),
            r ==> final(self).subs@ == old(self).subs@.remove(
                find_id(old(self).subs@, subscription_id@),
            ),
            !r ==> final(self).subs@ == old(self).subs@,
            final(self).event_history == old(self).event_history,
            final(self).max_history_size == old(self).max_history_size,
            final(self).broadcast_tx == old(self).broadcast_tx,
    {
        let mut i: usize = 0;
        while i < self.subs.len()
            invariant
                i <= self.subs@.len(),
                *self == *old(self),
                forall|j: int| 0 <= j < i ==> self.subs@[j].id@ != subscription_id@,
            decreases self.subs@.len() - i,
        {
            if str_eq(self.subs[i].id.as_str(), subscription_id) {
                proof {
                    lemma_find_id_at(self.subs@, subscription_id@, i as int);
                }
                self.subs.remove(i);
                return true;
            }
            i += 1;
        }
        proof {
            lemma_find_id_absent(self.subs@, subscription_id@);
        }
        false
    }

    /// Emits one record: appends it to the history (evicting the oldest
    /// entry past capacity), hands a copy to the broadcast channel, and
    /// returns the identifiers of the matching subscriptions, in
    /// registration order. Succeeds on every input.
    pub fn emit(&mut self, event: Event) -> (r: Result<Vec<String>, BusError>)
        requires
            old(self).wf(),
        ensures
            final(self).wf(),
            emitted(*old(self), *final(self), r, event),
    {
        let mut ids: Vec<String> = Vec::new();
        let mut i: usize = 0;
        while i < self.subs.len()
            invariant
                i <= self.subs@.len(),
                *self == *old(self),
                ids.deep_view() =~= dispatch_ids(self.subs@.subrange(0, i as int), event.name@),
            decreases self.subs@.len() - i,
        {
            proof {
                assert(self.subs@.subrange(0, i + 1).drop_last() =~= self.subs@.subrange(
                    0,
                    i as int,
                ));
            }
            let sub = &self.subs[i];
            if match_pattern(sub.pattern.as_str(), event.name.as_str()) {
                ids.push(sub.id.clone());
            }
            proof {
                assert(ids.deep_view() =~= dispatch_ids(
                    self.subs@.subrange(0, i + 1),
                    event.name@,
                ));
            }
            i += 1;
        }
        proof {
            assert(self.subs@.subrange(0, self.subs@.len() as int) =~= self.subs@);
        }
        let _ = broadcast_send(&self.broadcast_tx, event.clone());
        self.event_history.push(event);
        if self.event_history.len() > self.max_history_size {
            self.event_history.remove(0);
            proof {
                assert(final(self).event_history@ =~= push_evict(
                    old(self).event_history@,
                    event,
                    old(self).max_history_size as nat,
                ));
            }
        }
        Ok(ids)
    }

    /// The most recent records, newest first: all of them when no limit
    /// is given, otherwise at most `limit` of them.
    pub fn get_event_history(&self, limit: Option<usize>) -> (r: Vec<Event>)
        ensures
            r@.len() == history_count(limit, self.event_history@.len()),
            forall|i: int|
                0 <= i < r@.len() ==> event_eq(
                    self.event_history@[self.event_history@.len() - 1 - i],
                    r@[i],
                ),
    {
        let n = self.event_history.len();
        let k: usize = match limit {
            Some(l) => if l < n {
                l
            } else {
                n
            },
            None => n,
        };
        let mut r: Vec<Event> = Vec::new();
        let mut i: usize = 0;
        while i < k
            invariant
                i <= k,
                k <= n,
                n == self.event_history@.len(),
                r@.len() == i,
                forall|j: int|
                    0 <= j < i ==> event_eq(self.event_history@[n - 1 - j], r@[j]),
            decreases k - i,
        {
            r.push(self.event_history[n - 1 - i].clone());
            i += 1;
        }
        r
    }

    /// Emits a batch of records in order, one push-evict step each,
    /// and hands back each record's matching identifiers. Together
    /// with the history-bound law this pins what any run of emits
    /// leaves in the history.
    pub fn emit_all(&mut self, events: Vec<Event>) -> (r: Vec<Vec<String>>)
        requires
            old(self).wf(),
        ensures
            final(self).wf(),
            final(self).subs == old(self).subs,
            final(self).max_history_size == old(self).max_history_size,
            final(self).broadcast_tx == old(self).broadcast_tx,
            final(self).event_history@ == run_emits(
                old(self).event_history@,
                events@,
                old(self).max_history_size as nat,
            ),
            r@.len() == events@.len(),
            forall|j: int|
                0 <= j < events@.len() ==> r@[j].deep_view() == dispatch_ids(
                    old(self).subs@,
                    events@[j].name@,
                ),
    {
        let ghost orig = events@;
        let ghost cap = old(self).max_history_size as nat;
        let mut pending = events;
        let mut results: Vec<Vec<String>> = Vec::new();
        while pending.len() > 0
            invariant
                self.wf(),
                self.subs == old(self).subs,
                self.max_history_size == old(self).max_history_size,
                self.broadcast_tx == old(self).broadcast_tx,
                cap == old(self).max_history_size as nat,
                results@.len() + pending@.len() == orig.len(),
                pending@ =~= orig.skip(results@.len() as int),
                self.event_history@ == run_emits(
                    old(self).event_history@,
                    orig.take(results@.len() as int),
                    cap,
                ),
                forall|j: int|
                    0 <= j < results@.len() ==> results@[j].deep_view() == dispatch_ids(
                        old(self).subs@,
                        orig[j].name@,
                    ),
            decreases pending@.len(),
        {
            let ghost k = results@.len() as int;
            let next = pending.remove(0);
            proof {
                assert(next == orig[k]);
                assert(orig.take(k + 1) =~= orig.take(k).push(orig[k]));
                lemma_run_emits_snoc(old(self).event_history@, orig.take(k), orig[k], cap);
            }
            let ids = match self.emit(next) {
                Ok(ids) => ids,
                Err(_) => Vec::new(),
            };
            results.push(ids);
            proof {
                assert(pending@ =~= orig.skip(results@.len() as int));
            }
        }
        proof {
            assert(orig.take(results@.len() as int) =~= orig);
        }
        results
    }

    /// Relies on tokio Sender::subscribe: a fresh passive receiver on
    /// the broadcast channel; it sees the records emitted from now on,
    /// and misses what it does not keep up with.
    #[verifier::external_body]
    pub fn get_receiver(&self) -> tokio::sync::broadcast::Receiver<Event> {
        self.broadcast_tx.subscribe()
    }

    /// Emits a counter-increment record from `source`.
    pub fn emit_counter_increment(&mut self, source: &str) -> (r: Result<Vec<String>, BusError>)
        requires
            old(self).wf(),
        ensures
            final(self).wf(),
            exists|e: Event|
                {
                    &&& #[trigger] emitted(*old(self), *final(self), r, e)
                    &&& e.event_type is CounterIncrement
                    &&& e.source@ == source@
                    &&& e.name@ == spec_event_name(e.event_type)
                },
    {
        let ev = Event::new(EventType::CounterIncrement, source);
        let ghost w = ev;
        let r = self.emit(ev);
        proof {
            assert(emitted(*old(self), *self, r, w));
        }
        r
    }

    /// Emits a counter-reset record from `source`.
    pub fn emit_counter_reset(&mut self, source: &str) -> (r: Result<Vec<String>, BusError>)
        requires
            old(self).wf(),
        ensures
            final(self).wf(),
            exists|e: Event|
                {
                    &&& #[trigger] emitted(*old(self), *final(self), r, e)
                    &&& e.event_type is CounterReset
                    &&& e.source@ == source@
                    &&& e.name@ == spec_event_name(e.event_type)
                },
    {
        let ev = Event::new(EventType::CounterReset, source);
        let ghost w = ev;
        let r = self.emit(ev);
        proof {
            assert(emitted(*old(self), *self, r, w));
        }
        r
    }

    /// Emits a counter-value-changed record carrying `value`.
    pub fn emit_counter_value_changed(&mut self, value: i32, source: &str) -> (r: Result<
        Vec<String>,
        BusError,
    >)
        requires
            old(self).wf(),
        ensures
            final(self).wf(),
            exists|e: Event|
                {
                    &&& #[trigger] emitted(*old(self), *final(self), r, e)
                    &&& e.event_type == EventType::CounterValueChanged { value }
                    &&& e.source@ == source@
                    &&& e.name@ == spec_event_name(e.event_type)
                },
    {
        let ev = Event::new(EventType::CounterValueChanged { value }, source);
        let ghost w = ev;
        let r = self.emit(ev);
        proof {
            assert(emitted(*old(self), *self, r, w));
        }
        r
    }

    /// Emits a users-fetched record carrying the fetched rows.
    pub fn emit_users_fetched(
        &mut self,
        count: usize,
        users: Vec<JsonValue>,
        source: &str,
    ) -> (r: Result<Vec<String>, BusError>)
        requires
            old(self).wf(),
        ensures
            final(self).wf(),
            exists|e: Event|
                {
                    &&& #[trigger] emitted(*old(self), *final(self), r, e)
                    &&& e.event_type matches EventType::UsersFetched { count: c, users: u }
                        && c == count && u == users
                    &&& e.source@ == source@
                    &&& e.name@ == spec_event_name(e.event_type)
                },
    {
        let ev = Event::new(EventType::UsersFetched { count, users }, source);
        let ghost w = ev;
        let r = self.emit(ev);
        proof {
            assert(emitted(*old(self), *self, r, w));
        }
        r
    }

    /// Emits a system-info-request record from `source`.
    pub fn emit_system_info_request(&mut self, source: &str) -> (r: Result<Vec<String>, BusError>)
        requires
            old(self).wf(),
        ensures
            final(self).wf(),
            exists|e: Event|
                {
                    &&& #[trigger] emitted(*old(self), *final(self), r, e)
                    &&& e.event_type is SystemInfoRequested
                    &&& e.source@ == source@
                    &&& e.name@ == spec_event_name(e.event_type)
                },
    {
        let ev = Event::new(EventType::SystemInfoRequested, source);
        let ghost w = ev;
        let r = self.emit(ev);
        proof {
            assert(emitted(*old(self), *self, r, w));
        }
        r
    }

    /// Emits a build-started record for `build_id`.
    pub fn emit_build_started(&mut self, build_id: &str, source: &str) -> (r: Result<
        Vec<String>,
        BusError,
    >)
        requires
            old(self).wf(),
        ensures
            final(self).wf(),
            exists|e: Event|
                {
                    &&& #[trigger] emitted(*old(self), *final(self), r, e)
                    &&& e.event_type matches EventType::BuildStarted { build_id: b } && b@
                        == build_id@
                    &&& e.source@ == source@
                    &&& e.name@ == spec_event_name(e.event_type)
                },
    {
        let ev = Event::new(EventType::BuildStarted { build_id: build_id.to_owned() }, source);
        let ghost w = ev;
        let r = self.emit(ev);
        proof {
            assert(emitted(*old(self), *self, r, w));
        }
        r
    }

    /// Emits a build-progress record: the step and its whole-percent
    /// progress.
    pub fn emit_build_progress(
        &mut self,
        build_id: &str,
        step: &str,
        progress: u32,
        source: &str,
    ) -> (r: Result<Vec<String>, BusError>)
        requires
            old(self).wf(),
        ensures
            final(self).wf(),
            exists|e: Event|
                {
                    &&& #[trigger] emitted(*old(self), *final(self), r, e)
                    &&& e.event_type matches EventType::BuildProgress { build_id: b, step: s, progress: p }
                        && b@ == build_id@ && s@ == step@ && p == progress
                    &&& e.source@ == source@
                    &&& e.name@ == spec_event_name(e.event_type)
                },
    {
        let ev = Event::new(
            EventType::BuildProgress {
                build_id: build_id.to_owned(),
                step: step.to_owned(),
                progress,
            },
            source,
        );
        let ghost w = ev;
        let r = self.emit(ev);
        proof {
            assert(emitted(*old(self), *self, r, w));
        }
        r
    }

    /// Emits a build-completed record with outcome and duration.
    pub fn emit_build_completed(
        &mut self,
        build_id: &str,
        success: bool,
        duration_ms: u64,
        source: &str,
    ) -> (r: Result<Vec<String>, BusError>)
        requires
            old(self).wf(),
        ensures
            final(self).wf(),
            exists|e: Event|
                {
                    &&& #[trigger] emitted(*old(self), *final(self), r, e)
                    &&& e.event_type matches EventType::BuildCompleted { build_id: b, success: s, duration_ms: d }
                        && b@ == build_id@ && s == success && d == duration_ms
                    &&& e.source@ == source@
                    &&& e.name@ == spec_event_name(e.event_type)
                },
    {
        let ev = Event::new(
            EventType::BuildCompleted { build_id: build_id.to_owned(), success, duration_ms },
            source,
        );
        let ghost w = ev;
        let r = self.emit(ev);
        proof {
            assert(emitted(*old(self), *self, r, w));
        }
        r
    }

    /// Emits a custom record: its name is the given one, its payload the
    /// given value.
    pub fn emit_custom(&mut self, name: &str, payload: JsonValue, source: &str) -> (r: Result<
        Vec<String>,
        BusError,
    >)
        requires
            old(self).wf(),
        ensures
            final(self).wf(),
            exists|e: Event|
                {
                    &&& #[trigger] emitted(*old(self), *final(self), r, e)
                    &&& e.event_type matches EventType::Custom { name: n, payload: p } && n@
                        == name@ && p == payload
                    &&& e.source@ == source@
                    &&& e.name@ == name@
                },
    {
        let ev = Event::new(EventType::Custom { name: name.to_owned(), payload }, source);
        let ghost w = ev;
        let r = self.emit(ev);
        proof {
            assert(emitted(*old(self), *self, r, w));
        }
        r
    }

    /// Emits a UI-bridge-connected record from `source`.
    pub fn emit_webui_connected(&mut self, source: &str) -> (r: Result<Vec<String>, BusError>)
        requires
            old(self).wf(),
        ensures
            final(self).wf(),
            exists|e: Event|
                {
                    &&& #[trigger] emitted(*old(self), *final(self), r, e)
                    &&& e.event_type is WebUIConnected
                    &&& e.source@ == source@
                    &&& e.name@ == spec_event_name(e.event_type)
                },
    {
        let ev = Event::new(EventType::WebUIConnected, source);
        let ghost w = ev;
        let r = self.emit(ev);
        proof {
            assert(emitted(*old(self), *self, r, w));
        }
        r
    }

    /// Emits a UI-bridge-ready record from `source`.
    pub fn emit_webui_ready(&mut self, source: &str) -> (r: Result<Vec<String>, BusError>)
        requires
            old(self).wf(),
        ensures
            final(self).wf(),
            exists|e: Event|
                {
                    &&& #[trigger] emitted(*old(self), *final(self), r, e)
                    &&& e.event_type is WebUIReady
                    &&& e.source@ == source@
                    &&& e.name@ == spec_event_name(e.event_type)
                },
    {
        let ev = Event::new(EventType::WebUIReady, source);
        let ghost w = ev;
        let r = self.emit(ev);
        proof {
            assert(emitted(*old(self), *self, r, w));
        }
        r
    }

    /// Emits a UI-bridge-disconnected record from `source`.
    pub fn emit_webui_disconnected(&mut self, source: &str) -> (r: Result<Vec<String>, BusError>)
        requires
            old(self).wf(),
        ensures
            final(self).wf(),
            exists|e: Event|
                {
                    &&& #[trigger] emitted(*old(self), *final(self), r, e)
                    &&& e.event_type is WebUIDisconnected
                    &&& e.source@ == source@
                    &&& e.name@ == spec_event_name(e.event_type)
                },
    {
        let ev = Event::new(EventType::WebUIDisconnected, source);
        let ghost w = ev;
        let r = self.emit(ev);
        proof {
            assert(emitted(*old(self), *self, r, w));
        }
        r
    }
}

impl<L> Default for EventBus<L> {
    /// The default bus is a fresh one.
    fn default() -> (bus: Self)
        ensures
            bus.wf(),
            bus.subs@.len() == 0,
            bus.event_history@.len() == 0,
            bus.max_history_size == 1000,
    {
        Self::new()
    }
}

/// How many records a history request hands back: the whole history, or
/// the limit where it is smaller.
pub open spec fn history_count(limit: Option<usize>, n: nat) -> nat {
    match limit {
        Some(l) => if l < n {
            l as nat
        } else {
            n
        },
        None => n,
    }
}

/// The history that a run of emits leaves behind, one push-evict step
/// per record.
pub open spec fn run_emits(h: Seq<Event>, es: Seq<Event>, cap: nat) -> Seq<Event>
    decreases es.len(),
{
    if es.len() == 0 {
        h
    } else {
        run_emits(push_evict(h, es[0], cap), es.drop_first(), cap)
    }
}

proof fn lemma_run_emits_snoc(h: Seq<Event>, es: Seq<Event>, e: Event, cap: nat)
    ensures
        run_emits(h, es.push(e), cap) == push_evict(run_emits(h, es, cap), e, cap),
    decreases es.len(),
{
    let grown = es.push(e);
    assert(grown.len() == es.len() + 1);
    if es.len() == 0 {
        assert(grown[0] == e);
        assert(grown.drop_first() =~= Seq::<Event>::empty());
        assert(run_emits(h, grown, cap) == run_emits(push_evict(h, e, cap), grown.drop_first(), cap));
        assert(run_emits(push_evict(h, e, cap), grown.drop_first(), cap) == push_evict(h, e, cap));
        assert(run_emits(h, es, cap) == h);
    } else {
        assert(grown[0] == es[0]);
        assert(grown.drop_first() =~= es.drop_first().push(e));
        lemma_run_emits_snoc(push_evict(h, es[0], cap), es.drop_first(), e, cap);
        assert(run_emits(h, grown, cap) == run_emits(push_evict(h, es[0], cap), grown.drop_first(), cap));
        assert(run_emits(h, es, cap) == run_emits(push_evict(h, es[0], cap), es.drop_first(), cap));
    }
}

/// How many of the oldest entries fall out of a history of nominal
/// length `n` under capacity `cap`.
pub open spec fn evicted_count(n: int, cap: int) -> int {
    if n > cap {
        n - cap
    } else {
        0
    }
}

proof fn lemma_run_emits_general(h: Seq<Event>, es: Seq<Event>, cap: nat)
    requires
        cap >= 1,
        h.len() <= cap,
    ensures
        run_emits(h, es, cap) =~= (h + es).skip(evicted_count((h.len() + es.len()) as int, cap as int)),
    decreases es.len(),
{
    if es.len() == 0 {
        assert((h + es) =~= h);
        assert(h.skip(0) =~= h);
    } else {
        let h1 = push_evict(h, es[0], cap);
        lemma_run_emits_general(h1, es.drop_first(), cap);
        if h.len() < cap {
            assert(h1 =~= h.push(es[0]));
            assert((h1 + es.drop_first()) =~= (h + es));
        } else {
            assert(h1 =~= h.push(es[0]).drop_first());
            assert((h1 + es.drop_first()) =~= (h + es).skip(1));
            assert(((h + es).skip(1)).skip(evicted_count(h1.len() + es.len() - 1, cap as int)) =~= (h
                + es).skip(evicted_count((h.len() + es.len()) as int, cap as int)));
        }
    }
}

/// **Law (history bound)**: starting from any history within capacity,
/// a run of at least `cap` emits leaves exactly the last `cap` emitted
/// records, in emission order. `get_event_history` then hands them back
/// newest first.
pub proof fn lemma_history_bound(h: Seq<Event>, es: Seq<Event>, cap: nat)
    requires
        cap >= 1,
        h.len() <= cap,
        es.len() >= cap,
    ensures
        run_emits(h, es, cap).len() == cap,
        run_emits(h, es, cap) == es.skip(es.len() - cap),
{
    lemma_run_emits_general(h, es, cap);
    assert(run_emits(h, es, cap) =~= es.skip(es.len() - cap));
}

/// How many entries of `ids` are the identifier `x`.
pub open spec fn occurrences(ids: Seq<Seq<char>>, x: Seq<char>) -> nat
    decreases ids.len(),
{
    if ids.len() == 0 {
        0
    } else {
        occurrences(ids.drop_last(), x) + (if ids.last() == x {
            1nat
        } else {
            0nat
        })
    }
}

proof fn lemma_dispatch_absent<L>(subs: Seq<Registration<L>>, name: Seq<char>, x: Seq<char>)
    requires
        forall|m: int| 0 <= m < subs.len() ==> subs[m].id@ != x,
    ensures
        occurrences(dispatch_ids(subs, name), x) == 0,
    decreases subs.len(),
{
    if subs.len() > 0 {
        assert forall|m: int| 0 <= m < subs.drop_last().len() implies subs.drop_last()[m].id@
            != x by {
            assert(subs.drop_last()[m] == subs[m]);
        }
        lemma_dispatch_absent(subs.drop_last(), name, x);
        let rest = dispatch_ids(subs.drop_last(), name);
        if spec_match(subs.last().pattern@, name) {
            assert(rest.push(subs.last().id@).drop_last() =~= rest);
            assert(subs.last().id@ != x);
        }
    }
}

/// A subscription whose identifier occurs once among the registrations,
/// and whose pattern matches, is dispatched to exactly once.
pub proof fn lemma_dispatch_exactly_once<L>(subs: Seq<Registration<L>>, name: Seq<char>, k: int)
    requires
        0 <= k < subs.len(),
        spec_match(subs[k].pattern@, name),
        forall|m: int| 0 <= m < subs.len() && m != k ==> subs[m].id@ != subs[k].id@,
    ensures
        occurrences(dispatch_ids(subs, name), subs[k].id@) == 1,
    decreases subs.len(),
{
    let x = subs[k].id@;
    let rest = dispatch_ids(subs.drop_last(), name);
    if k == subs.len() - 1 {
        assert forall|m: int| 0 <= m < subs.drop_last().len() implies subs.drop_last()[m].id@
            != x by {
            assert(subs.drop_last()[m] == subs[m]);
        }
        lemma_dispatch_absent(subs.drop_last(), name, x);
        assert(rest.push(x).drop_last() =~= rest);
    } else {
        assert(subs.drop_last()[k] == subs[k]);
        assert forall|m: int|
            0 <= m < subs.drop_last().len() && m != k implies subs.drop_last()[m].id@ != x by {
            assert(subs.drop_last()[m] == subs[m]);
        }
        lemma_dispatch_exactly_once(subs.drop_last(), name, k);
        if spec_match(subs.last().pattern@, name) {
            assert(rest.push(subs.last().id@).drop_last() =~= rest);
            assert(subs.last().id@ != x);
        }
    }
}

/// **Law (fan-out isolation)**: two subscriptions with distinct
/// identifiers whose patterns both match the record's name each appear
/// exactly once in the dispatch set of an emit, whatever any listener
/// later does with its delivery.
pub proof fn lemma_fanout_isolation<L>(subs: Seq<Registration<L>>, name: Seq<char>, i: int, j: int)
    requires
        0 <= i < subs.len(),
        0 <= j < subs.len(),
        i != j,
        spec_match(subs[i].pattern@, name),
        spec_match(subs[j].pattern@, name),
        forall|m: int, n: int|
            0 <= m < subs.len() && 0 <= n < subs.len() && m != n ==> subs[m].id@ != subs[n].id@,
    ensures
        occurrences(dispatch_ids(subs, name), subs[i].id@) == 1,
        occurrences(dispatch_ids(subs, name), subs[j].id@) == 1,
{
    lemma_dispatch_exactly_once(subs, name, i);
    lemma_dispatch_exactly_once(subs, name, j);
}

/// **Law (idempotent unsubscribe)**: when an identifier occurs exactly
/// once among the registrations, the first unsubscribe finds it and the
/// second does not: the calls return true, then false.
pub proof fn lemma_unsubscribe_idempotent<L>(subs: Seq<Registration<L>>, k: int)
    requires
        0 <= k < subs.len(),
        forall|m: int| 0 <= m < subs.len() && m != k ==> subs[m].id@ != subs[k].id@,
    ensures
        find_id(subs, subs[k].id@) == k,
        find_id(subs.remove(k), subs[k].id@) == -1,
{
    lemma_find_id_at(subs, subs[k].id@, k);
    let rest = subs.remove(k);
    assert forall|m: int| 0 <= m < rest.len() implies rest[m].id@ != subs[k].id@ by {
        if m < k {
            assert(rest[m] == subs[m]);
        } else {
            assert(rest[m] == subs[m + 1]);
        }
    }
    lemma_find_id_absent(rest, subs[k].id@);
}

proof fn lemma_find_id_at<L>(subs: Seq<Registration<L>>, id: Seq<char>, i: int)
    requires
        0 <= i < subs.len(),
        subs[i].id@ == id,
        forall|j: int| 0 <= j < i ==> subs[j].id@ != id,
    ensures
        find_id(subs, id) == i,
    decreases subs.len(),
{
    if i > 0 {
        lemma_find_id_at(subs.drop_first(), id, i - 1);
    }
}

proof fn lemma_find_id_absent<L>(subs: Seq<Registration<L>>, id: Seq<char>)
    requires
        forall|j: int| 0 <= j < subs.len() ==> subs[j].id@ != id,
    ensures
        find_id(subs, id) == -1,
    decreases subs.len(),
{
    if subs.len() > 0 {
        lemma_find_id_absent(subs.drop_first(), id);
    }
}

} // verus!

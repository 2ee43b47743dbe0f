//! Debug session trace: entries, result truncation and the in-memory ring of
//! recent entries.
//!
//! Recording is non-blocking for the caller: entries travel over a channel to
//! a background task, which keeps the ring and writes the JSONL file; that
//! plumbing is I/O and lives with the caller.

use crate::json::JsonValue;
use std::collections::VecDeque;
use vstd::prelude::*;
use vstd::string::*;
use vstd::utf8::*;

verus! {

/// Default ring buffer capacity: keep the last 10,000 entries in memory.
pub const DEFAULT_RING_SIZE: usize = 10000;

/// Maximum length in characters of result strings stored in trace entries.
pub const MAX_RESULT_LEN: usize = 500;

/// Identifies which subsystem produced a trace entry.
#[derive(Debug, Clone, Copy, PartialEq, Eq, Structural)]
pub enum TraceSource {
    /// A DAP request was sent to the debug adapter.
    DapRequest,
    /// A DAP response was received from the debug adapter.
    DapResponse,
    /// An unsolicited DAP event was received (e.g., "stopped", "output").
    DapEvent,
    /// An MCP tool was called by the AI client.
    McpTrigger,
    /// A Tcl command was sent to OpenOCD.
    OpenOcdTx,
    /// A Tcl response was received from OpenOCD.
    OpenOcdRx,
    /// Internal lifecycle events (state transitions, connections, etc.).
    Internal,
}

/// Direction of data flow for a trace entry.
#[derive(Debug, Clone, Copy, PartialEq, Eq, Structural)]
pub enum TraceDirection {
    /// Data flowing in (from hardware or AI).
    Inbound,
    /// Data flowing out (to hardware or AI).
    Outbound,
}

/// A single trace entry recording one debug interaction.
#[derive(Debug)]
pub struct TraceEntry {
    /// When the interaction happened, in microseconds since the Unix epoch (UTC).
    pub timestamp: i64,
    /// Which subsystem produced this entry.
    pub source: TraceSource,
    /// Direction of data flow.
    pub direction: TraceDirection,
    /// Human-readable command or event name.
    pub command: String,
    /// Optional structured payload (tool arguments, DAP body, etc.).
    pub payload: Option<JsonValue>,
    /// Result summary, truncated to `MAX_RESULT_LEN` characters.
    pub result: Option<String>,
    /// Wall-clock duration in microseconds for request-response pairs.
    pub duration_us: Option<i64>,
    /// Session correlation ID (persists for entire server lifetime).
    pub session_id: String,
    /// Monotonic sequence number within this session.
    pub seq: u64,
}

impl Clone for TraceEntry {
    fn clone(&self) -> (r: Self)
        ensures
            r == *self,
    {
        TraceEntry {
            timestamp: self.timestamp,
            source: self.source,
            direction: self.direction,
            command: self.command.clone(),
            payload: match &self.payload {
                Some(v) => Some(v.clone()),
                None => None,
            },
            result: match &self.result {
                Some(s) => Some(s.clone()),
                None => None,
            },
            duration_us: self.duration_us,
            session_id: self.session_id.clone(),
            seq: self.seq,
        }
    }
}

/// Whether `e` is a fresh entry with these fields, not yet numbered.
pub open spec fn spec_entry_is(
    e: TraceEntry,
    timestamp: i64,
    source: TraceSource,
    direction: TraceDirection,
    command: Seq<char>,
    session_id: Seq<char>,
) -> bool {
    &&& e.timestamp == timestamp
    &&& e.source == source
    &&& e.direction == direction
    &&& e.command@ == command
    &&& e.session_id@ == session_id
    &&& e.seq == 0
}

impl TraceEntry {
    /// The entry for a DAP request sent to the adapter, with its arguments.
    pub fn request(timestamp: i64, command: &str, payload: Option<JsonValue>, session_id: &str) -> (r:
        Self)
        ensures
            spec_entry_is(
                r,
                timestamp,
                TraceSource::DapRequest,
                TraceDirection::Outbound,
                command@,
                session_id@,
            ),
            r.payload == payload,
            r.result is None,
            r.duration_us is None,
    {
        TraceEntry {
            timestamp,
            source: TraceSource::DapRequest,
            direction: TraceDirection::Outbound,
            command: String::from_str(command),
            payload,
            result: None,
            duration_us: None,
            session_id: String::from_str(session_id),
            seq: 0,
        }
    }

    /// The entry for a DAP response, with its result cut to
    /// `MAX_RESULT_LEN` characters and the time the request took.
    pub fn response(
        timestamp: i64,
        command: &str,
        result: Option<String>,
        duration_us: Option<i64>,
        session_id: &str,
    ) -> (r: Self)
        ensures
            spec_entry_is(
                r,
                timestamp,
                TraceSource::DapResponse,
                TraceDirection::Inbound,
                command@,
                session_id@,
            ),
            r.payload is None,
            match result {
                Some(s) => r.result matches Some(t) && t@ == spec_truncate(s@, MAX_RESULT_LEN),
                None => r.result is None,
            },
            r.duration_us == duration_us,
    {
        let truncated = match result {
            Some(s) => Some(truncate(s.as_str(), MAX_RESULT_LEN)),
            None => None,
        };
        TraceEntry {
            timestamp,
            source: TraceSource::DapResponse,
            direction: TraceDirection::Inbound,
            command: String::from_str(command),
            payload: None,
            result: truncated,
            duration_us,
            session_id: String::from_str(session_id),
            seq: 0,
        }
    }

    /// The entry for a DAP event from the adapter, with its body.
    pub fn event(timestamp: i64, event: &str, body: Option<JsonValue>, session_id: &str) -> (r: Self)
        ensures
            spec_entry_is(
                r,
                timestamp,
                TraceSource::DapEvent,
                TraceDirection::Inbound,
                event@,
                session_id@,
            ),
            r.payload == body,
            r.result is None,
            r.duration_us is None,
    {
        TraceEntry {
            timestamp,
            source: TraceSource::DapEvent,
            direction: TraceDirection::Inbound,
            command: String::from_str(event),
            payload: body,
            result: None,
            duration_us: None,
            session_id: String::from_str(session_id),
            seq: 0,
        }
    }

    /// The entry for a tool call from the AI client, with its parameters.
    pub fn mcp_trigger(timestamp: i64, tool: &str, params: JsonValue, session_id: &str) -> (r: Self)
        ensures
            spec_entry_is(
                r,
                timestamp,
                TraceSource::McpTrigger,
                TraceDirection::Inbound,
                tool@,
                session_id@,
            ),
            r.payload == Some(params),
            r.result is None,
            r.duration_us is None,
    {
        TraceEntry {
            timestamp,
            source: TraceSource::McpTrigger,
            direction: TraceDirection::Inbound,
            command: String::from_str(tool),
            payload: Some(params),
            result: None,
            duration_us: None,
            session_id: String::from_str(session_id),
            seq: 0,
        }
    }

    /// The entry for an internal lifecycle event.
    pub fn internal(timestamp: i64, message: &str, payload: Option<JsonValue>, session_id: &str) -> (r:
        Self)
        ensures
            spec_entry_is(
                r,
                timestamp,
                TraceSource::Internal,
                TraceDirection::Outbound,
                message@,
                session_id@,
            ),
            r.payload == payload,
            r.result is None,
            r.duration_us is None,
    {
        TraceEntry {
            timestamp,
            source: TraceSource::Internal,
            direction: TraceDirection::Outbound,
            command: String::from_str(message),
            payload,
            result: None,
            duration_us: None,
            session_id: String::from_str(session_id),
            seq: 0,
        }
    }
}

/// The name of a session's JSONL trace file: "teledap_" and the text of the
/// first eight bytes of the session ID, which must end on a character
/// boundary.
pub fn trace_file_name(session_id: &str) -> (r: String)
    requires
        is_char_boundary(session_id.spec_bytes(), 8),
    ensures
        r@ == "teledap_"@ + decode_utf8(session_id.spec_bytes().take(8)) + ".jsonl"@,
{
    let (head, _) = session_id.split_at(8);
    let mut r = String::from_str("teledap_");
    r.append(head);
    r.append(".jsonl");
    proof {
        broadcast use encode_utf8_decode_utf8;

        assert(head.spec_bytes() =~= session_id.spec_bytes().take(8));
        assert(decode_utf8(encode_utf8(head@)) == head@);
    }
    r
}

/// `s` cut to its first `max_len` characters followed by "…" when it has
/// more than `max_len` characters, else `s` unchanged.
pub open spec fn spec_truncate(s: Seq<char>, max_len: usize) -> Seq<char> {
    if s.len() <= max_len {
        s
    } else {
        s.take(max_len as int) + seq!['…']
    }
}

/// Truncate a string to `max_len` characters, appending "…" if truncated.
pub fn truncate(s: &str, max_len: usize) -> (r: String)
    ensures
        r@ == spec_truncate(s@, max_len),
{
    let n = s.unicode_len();
    if n <= max_len {
        String::from_str(s)
    } else {
        let head = s.substring_char(0, max_len);
        let mut r = String::from_str(head);
        r.append("…");
        proof {
            reveal_strlit("…");
            assert(r@ =~= s@.take(max_len as int) + seq!['…']);
        }
        r
    }
}

// ── Ring buffer ──────────────────────────────────────────────────────────

/// The ring after one entry arrives: when full it first drops its oldest
/// entry; a ring of capacity zero keeps nothing.
pub open spec fn spec_ring_push<T>(ring: Seq<T>, capacity: usize, entry: T) -> Seq<T> {
    if capacity == 0 {
        Seq::empty()
    } else if ring.len() >= capacity {
        ring.drop_first().push(entry)
    } else {
        ring.push(entry)
    }
}

/// The in-memory ring of the most recent trace entries.
pub struct TraceRing<T> {
    /// The entries, oldest first.
    entries: VecDeque<T>,
    /// The number of entries kept.
    capacity: usize,
}

impl<T: Clone> TraceRing<T> {
    /// The entries, oldest first.
    pub closed spec fn view_entries(&self) -> Seq<T> {
        self.entries@
    }

    /// The number of entries kept.
    pub closed spec fn view_capacity(&self) -> usize {
        self.capacity
    }

    /// An empty ring keeping at most `capacity` entries.
    pub fn new(capacity: usize) -> (r: Self)
        ensures
            r.view_entries() == Seq::<T>::empty(),
            r.view_capacity() == capacity,
    {
        TraceRing { entries: VecDeque::new(), capacity }
    }

    /// Record an entry, dropping the oldest one when the ring is full.
    /// A ring of capacity zero stays empty.
    pub fn push(&mut self, entry: T)
        ensures
            final(self).view_entries() == spec_ring_push(
                old(self).view_entries(),
                old(self).view_capacity(),
                entry,
            ),
            final(self).view_capacity() == old(self).view_capacity(),
    {
        if self.capacity == 0 {
            self.entries.clear();
            return;
        }
        if self.entries.len() >= self.capacity {
            let _ = self.entries.pop_front();
        }
        self.entries.push_back(entry);
    }

    /// Query recent entries, most recent first, up to `count` entries.
    pub fn recent(&self, count: usize) -> (r: Vec<T>)
        ensures
            r@.len() == if count <= self.view_entries().len() {
                count as int
            } else {
                self.view_entries().len() as int
            },
            forall|i: int|
                0 <= i < r@.len() ==> cloned::<T>(
                    self.view_entries()[self.view_entries().len() - 1 - i],
                    #[trigger] r@[i],
                ),
    {
        let n = self.entries.len();
        let mut r: Vec<T> = Vec::new();
        let mut i: usize = 0;
        while i < count && i < n
            invariant
                n == self.view_entries().len(),
                i <= n,
                i <= count,
                r@.len() == i,
                forall|j: int|
                    0 <= j < i ==> cloned::<T>(
                        self.view_entries()[n - 1 - j],
                        #[trigger] r@[j],
                    ),
            decreases n - i,
        {
            let e = self.entries[n - 1 - i].clone();
            r.push(e);
            i = i + 1;
        }
        r
    }

    /// Returns the number of entries currently in the ring.
    pub fn len(&self) -> (r: usize)
        ensures
            r == self.view_entries().len(),
    {
        self.entries.len()
    }

    /// Returns true if the ring is empty.
    pub fn is_empty(&self) -> (r: bool)
        ensures
            r == (self.view_entries().len() == 0),
    {
        self.entries.len() == 0
    }
}

// ── Laws ─────────────────────────────────────────────────────────────────

/// The ring never holds more entries than its capacity, and, unless the
/// capacity is zero, the entry just recorded is the newest.
pub proof fn lemma_ring_bounded<T>(ring: Seq<T>, capacity: usize, entry: T)
    requires
        ring.len() <= capacity,
    ensures
        spec_ring_push(ring, capacity, entry).len() <= capacity,
        capacity > 0 ==> spec_ring_push(ring, capacity, entry).last() == entry,
{
}

/// Once full, the ring keeps exactly the last `capacity` entries recorded:
/// pushing drops the oldest and keeps the others in order.
pub proof fn lemma_ring_keeps_latest<T>(ring: Seq<T>, capacity: usize, entry: T)
    requires
        capacity > 0,
        ring.len() == capacity,
    ensures
        spec_ring_push(ring, capacity, entry) == ring.subrange(1, ring.len() as int).push(entry),
{
}

/// The ring after the entries `es` arrive one by one, oldest first.
pub open spec fn spec_ring_push_all<T>(ring: Seq<T>, capacity: usize, es: Seq<T>) -> Seq<T>
    decreases es.len(),
{
    if es.len() == 0 {
        ring
    } else {
        spec_ring_push(spec_ring_push_all(ring, capacity, es.drop_last()), capacity, es.last())
    }
}

/// A ring that starts empty holds, after any run of entries, exactly the
/// last `capacity` of them (all of them while there are fewer), oldest
/// first.
pub proof fn lemma_ring_holds_last_entries<T>(capacity: usize, es: Seq<T>)
    ensures
        spec_ring_push_all(Seq::<T>::empty(), capacity, es) == es.subrange(
            if es.len() > capacity {
                es.len() - capacity
            } else {
                0
            },
            es.len() as int,
        ),
    decreases es.len(),
{
    let k = es.len() as int;
    if k == 0 {
        assert(es.subrange(0, 0) =~= Seq::<T>::empty());
    } else {
        let init = es.drop_last();
        lemma_ring_holds_last_entries(capacity, init);
        let prev = spec_ring_push_all(Seq::<T>::empty(), capacity, init);
        if capacity == 0 {
            assert(es.subrange(k, k) =~= Seq::<T>::empty());
        } else if prev.len() >= capacity {
            assert(prev =~= init.subrange(k - 1 - capacity, k - 1));
            assert(prev.drop_first().push(es.last()) =~= es.subrange(k - capacity, k));
        } else {
            assert(prev =~= init);
            assert(init.push(es.last()) =~= es);
            assert(es.subrange(0, k) =~= es);
        }
    }
}

} // verus!

//! Write-time deduplication of the JSONL output.
use crate::audit::config::NetworkAuditConfig;
use crate::audit::event::{
    copy_text, text, EventView, NetworkAuditDecision, NetworkAuditEvent, NetworkAuditMode,
};
use vstd::prelude::*;

verus! {

/// Deduplication window: events with the same key within this period are collapsed.
pub const DEDUP_WINDOW_MS: u64 = 30_000;

/// Key for deduplicating consecutive network events in the JSONL output.
pub struct DeduplicationKey {
    /// The event's target.
    pub target: String,
    /// The event's port.
    pub port: Option<u16>,
    /// The event's mode.
    pub mode: NetworkAuditMode,
    /// The event's decision.
    pub decision: NetworkAuditDecision,
}

/// The mathematical content of a [`DeduplicationKey`].
pub ghost struct KeyView {
    pub target: Seq<char>,
    pub port: Option<u16>,
    pub mode: NetworkAuditMode,
    pub decision: NetworkAuditDecision,
}

impl View for DeduplicationKey {
    type V = KeyView;

    open spec fn view(&self) -> KeyView {
        KeyView {
            target: self.target@,
            port: self.port,
            mode: self.mode,
            decision: self.decision,
        }
    }
}

/// The key of an event: its target, port, mode and decision.
pub open spec fn key_of(event: EventView) -> KeyView {
    KeyView {
        target: event.target,
        port: event.port,
        mode: event.mode,
        decision: event.decision,
    }
}

impl vstd::std_specs::cmp::PartialEqSpecImpl for DeduplicationKey {
    open spec fn obeys_eq_spec() -> bool {
        true
    }

    open spec fn eq_spec(&self, other: &Self) -> bool {
        self@ == other@
    }
}

impl PartialEq for DeduplicationKey {
    fn eq(&self, other: &Self) -> (r: bool) {
        self.target == other.target && self.port == other.port && self.mode == other.mode
            && self.decision == other.decision
    }
}

impl Eq for DeduplicationKey {}

impl DeduplicationKey {
    /// The key of `event`.
    pub fn from_event(event: &NetworkAuditEvent) -> (r: Self)
        ensures
            r@ == key_of(event@),
            r.target@ == event.target@,
            r.port == event.port,
            r.mode == event.mode,
            r.decision == event.decision,
    {
        Self {
            target: event.target.clone(),
            port: event.port,
            mode: event.mode,
            decision: event.decision,
        }
    }
}

/// A pending (not yet flushed) deduplicated event.
pub struct PendingEvent {
    /// The key that events of this entry share.
    pub key: DeduplicationKey,
    /// The first event in this dedup window (used for serialization).
    pub first_event: NetworkAuditEvent,
    /// Timestamp of the most recent occurrence in this window.
    pub last_seen_ts: u64,
    /// Number of events collapsed into this entry.
    pub count: u64,
}

/// The mathematical content of a [`PendingEvent`].
pub ghost struct PendingView {
    pub key: KeyView,
    pub first_event: EventView,
    pub last_seen_ts: u64,
    pub count: nat,
}

impl View for PendingEvent {
    type V = PendingView;

    open spec fn view(&self) -> PendingView {
        PendingView {
            key: self.key@,
            first_event: self.first_event@,
            last_seen_ts: self.last_seen_ts,
            count: self.count as nat,
        }
    }
}

impl PendingView {
    /// What holds of every entry that the deduplication builds: the key is
    /// that of the first event, at least one event is counted, and an entry of
    /// one event was last seen at that event's time.
    pub open spec fn wf(self) -> bool {
        &&& self.key == key_of(self.first_event)
        &&& self.count >= 1
        &&& self.count == 1 ==> self.last_seen_ts == self.first_event.timestamp_unix_ms
    }

    /// Whether `event` is collapsed into this entry: it has the entry's key, and
    /// comes no later than the window after the entry's first event. An event
    /// with an earlier timestamp than the first one is inside the window.
    pub open spec fn joins(self, event: EventView) -> bool {
        &&& self.key == key_of(event)
        &&& event.timestamp_unix_ms - self.first_event.timestamp_unix_ms <= DEDUP_WINDOW_MS
    }

    /// The entry that `event` starts.
    pub open spec fn start(event: EventView) -> PendingView {
        PendingView {
            key: key_of(event),
            first_event: event,
            last_seen_ts: event.timestamp_unix_ms,
            count: 1,
        }
    }

    /// This entry with one more event collapsed into it.
    pub open spec fn merge(self, event: EventView) -> PendingView {
        PendingView {
            last_seen_ts: event.timestamp_unix_ms,
            count: self.count + 1,
            ..self
        }
    }
}

impl PendingEvent {
    /// Whether `event` is collapsed into this entry.
    pub fn joins(&self, event: &NetworkAuditEvent) -> (r: bool)
        ensures
            r == self@.joins(event@),
            r == {
                &&& self.key.target@ == event.target@
                &&& self.key.port == event.port
                &&& self.key.mode == event.mode
                &&& self.key.decision == event.decision
                &&& event.timestamp_unix_ms - self.first_event.timestamp_unix_ms <= 30_000
            },
    {
        let window_expired = event.timestamp_unix_ms.saturating_sub(
            self.first_event.timestamp_unix_ms,
        ) > DEDUP_WINDOW_MS;

        !window_expired && self.key == DeduplicationKey::from_event(event)
    }
}

/// The entry that is pending after `event` arrives.
pub open spec fn entry_after(pending: Option<PendingView>, event: EventView) -> PendingView {
    match pending {
        Some(p) if p.joins(event) => p.merge(event),
        _ => PendingView::start(event),
    }
}

/// The entry that the arrival of `event` pushes out, if any.
pub open spec fn entry_pushed_out(pending: Option<PendingView>, event: EventView) -> Option<
    PendingView,
> {
    match pending {
        Some(p) if !p.joins(event) => Some(p),
        _ => None,
    }
}

/// One line of the JSONL log: an event with its session's context and the
/// number of events that it stands for.
#[derive(Debug, PartialEq, Eq)]
pub struct NetworkAuditLine {
    /// The first event of the group.
    pub event: NetworkAuditEvent,
    /// How many events the line stands for.
    pub count: u64,
    /// Timestamp of the last event in a collapsed group; absent for a single event.
    pub last_seen_unix_ms: Option<u64>,
    /// The session's ID.
    pub session_id: String,
    /// The session's name, if it has one.
    pub session_name: Option<String>,
    /// PID of the nono process.
    pub nono_pid: u32,
}

/// The mathematical content of a [`NetworkAuditLine`].
pub ghost struct LineView {
    pub event: EventView,
    pub count: nat,
    pub last_seen_unix_ms: Option<u64>,
    pub session_id: Seq<char>,
    pub session_name: Option<Seq<char>>,
    pub nono_pid: u32,
}

impl View for NetworkAuditLine {
    type V = LineView;

    open spec fn view(&self) -> LineView {
        LineView {
            event: self.event@,
            count: self.count as nat,
            last_seen_unix_ms: self.last_seen_unix_ms,
            session_id: self.session_id@,
            session_name: text(self.session_name),
            nono_pid: self.nono_pid,
        }
    }
}

/// The line that stands for a flushed entry.
pub open spec fn line_of(config: NetworkAuditConfig, entry: PendingView) -> LineView {
    LineView {
        event: entry.first_event,
        count: entry.count,
        last_seen_unix_ms: if entry.count > 1 {
            Some(entry.last_seen_ts)
        } else {
            None
        },
        session_id: config.session_id@,
        session_name: text(config.session_name),
        nono_pid: config.nono_pid,
    }
}

/// The content of an optional line.
pub open spec fn line_content(line: Option<NetworkAuditLine>) -> Option<LineView> {
    match line {
        Some(l) => Some(l@),
        None => None,
    }
}

/// The line of an optional entry.
pub open spec fn line_of_entry(config: NetworkAuditConfig, entry: Option<PendingView>) -> Option<
    LineView,
> {
    match entry {
        Some(p) => Some(line_of(config, p)),
        None => None,
    }
}

impl NetworkAuditLine {
    /// The line for `pending` in the session that `config` describes.
    pub fn new(config: &NetworkAuditConfig, pending: PendingEvent) -> (r: Self)
        ensures
            r@ == line_of(*config, pending@),
            r.event == pending.first_event,
            r.count == pending.count,
            r.last_seen_unix_ms == if pending.count > 1 {
                Some(pending.last_seen_ts)
            } else {
                None
            },
            r.session_id == config.session_id,
            r.session_name == config.session_name,
            r.nono_pid == config.nono_pid,
    {
        let last_seen_unix_ms = if pending.count > 1 {
            Some(pending.last_seen_ts)
        } else {
            None
        };
        NetworkAuditLine {
            event: pending.first_event,
            count: pending.count,
            last_seen_unix_ms,
            session_id: config.session_id.clone(),
            session_name: copy_text(&config.session_name),
            nono_pid: config.nono_pid,
        }
    }
}

/// File-writing state: config plus dedup tracking.
pub struct FileAuditState {
    /// Where the lines go, and the session they belong to.
    pub config: NetworkAuditConfig,
    /// The entry that is still open for more events.
    pub pending: Option<PendingEvent>,
}

/// The mathematical content of a [`FileAuditState`].
pub ghost struct FileView {
    pub config: NetworkAuditConfig,
    pub pending: Option<PendingView>,
}

impl View for FileAuditState {
    type V = FileView;

    open spec fn view(&self) -> FileView {
        FileView {
            config: self.config,
            pending: match self.pending {
                Some(p) => Some(p@),
                None => None,
            },
        }
    }
}

impl FileView {
    /// The open entry, if any, is one that the deduplication built.
    pub open spec fn wf(self) -> bool {
        self.pending matches Some(p) ==> p.wf()
    }

    /// The open entry's counter does not overflow when `event` arrives.
    pub open spec fn accepts(self, event: EventView) -> bool {
        self.pending matches Some(p) ==> p.joins(event) ==> p.count < u64::MAX
    }

    /// The state after `event` arrives.
    pub open spec fn after(self, event: EventView) -> FileView {
        FileView { pending: Some(entry_after(self.pending, event)), ..self }
    }

    /// The line that is written when `event` arrives.
    pub open spec fn line_on(self, event: EventView) -> Option<LineView> {
        line_of_entry(self.config, entry_pushed_out(self.pending, event))
    }

    /// The state after a flush.
    pub open spec fn flushed(self) -> FileView {
        FileView { pending: None, ..self }
    }

    /// The line that is written on a flush.
    pub open spec fn line_on_flush(self) -> Option<LineView> {
        line_of_entry(self.config, self.pending)
    }
}

impl FileAuditState {
    /// File output for the session that `config` describes, with nothing pending.
    pub fn new(config: NetworkAuditConfig) -> (r: Self)
        ensures
            r@ == (FileView { config, pending: None }),
            r.config == config,
            r.pending is None,
            r@.wf(),
    {
        FileAuditState { config, pending: None }
    }

    /// Whether [`FileAuditState::push`] can count `event`: only an entry that
    /// already stands for `u64::MAX` events cannot take one more.
    pub fn accepts(&self, event: &NetworkAuditEvent) -> (r: bool)
        ensures
            r == self@.accepts(event@),
            !r <==> (self.pending matches Some(p) && {
                &&& p.count == u64::MAX
                &&& p.key.target@ == event.target@
                &&& p.key.port == event.port
                &&& p.key.mode == event.mode
                &&& p.key.decision == event.decision
                &&& event.timestamp_unix_ms - p.first_event.timestamp_unix_ms <= 30_000
            }),
    {
        match &self.pending {
            Some(pending) => pending.count < u64::MAX || !pending.joins(event),
            None => true,
        }
    }

    /// Process an incoming event: either merge it into the pending entry, or
    /// flush the pending entry and start a new one. Returns the line to write,
    /// if the pending entry was flushed.
    pub fn push(&mut self, event: &NetworkAuditEvent) -> (r: Option<NetworkAuditLine>)
        requires
            old(self)@.accepts(event@),
        ensures
            final(self)@ == old(self)@.after(event@),
            line_content(r) == old(self)@.line_on(event@),
            old(self)@.wf() ==> final(self)@.wf(),
            final(self).config == old(self).config,
            final(self).pending is Some,
            final(self).pending->0.last_seen_ts == event.timestamp_unix_ms,
            ({
                let now = final(self).pending->0;
                match old(self).pending {
                    Some(p) => if {
                        &&& p.key.target@ == event.target@
                        &&& p.key.port == event.port
                        &&& p.key.mode == event.mode
                        &&& p.key.decision == event.decision
                        &&& event.timestamp_unix_ms - p.first_event.timestamp_unix_ms <= 30_000
                    } {
                        // The event is counted, and nothing is written.
                        &&& r is None
                        &&& now.key == p.key
                        &&& now.first_event == p.first_event
                        &&& now.count == p.count + 1
                    } else {
                        // The old entry is written, and the event starts a new one.
                        &&& now.first_event == *event
                        &&& now.count == 1
                        &&& r is Some
                        &&& r->0.event == p.first_event
                        &&& r->0.count == p.count
                        &&& r->0.last_seen_unix_ms == if p.count > 1 {
                            Some(p.last_seen_ts)
                        } else {
                            None
                        }
                        &&& r->0.session_id == old(self).config.session_id
                        &&& r->0.session_name == old(self).config.session_name
                        &&& r->0.nono_pid == old(self).config.nono_pid
                    },
                    None => {
                        &&& r is None
                        &&& now.first_event == *event
                        &&& now.count == 1
                    },
                }
            }),
            final(self).pending->0.key.target@ == event.target@,
            final(self).pending->0.key.port == event.port,
            final(self).pending->0.key.mode == event.mode,
            final(self).pending->0.key.decision == event.decision,
    {
        let mut line: Option<NetworkAuditLine> = None;

        if let Some(pending) = &mut self.pending {
            if pending.joins(event) {
                pending.count += 1;
                pending.last_seen_ts = event.timestamp_unix_ms;
                return None;
            }
            // Flush the old pending entry before starting a new one.

            line = self.flush_pending();
        }
        self.pending = Some(
            PendingEvent {
                key: DeduplicationKey::from_event(event),
                last_seen_ts: event.timestamp_unix_ms,
                first_event: event.clone(),
                count: 1,
            },
        );
        line
    }

    /// Close the pending entry, if any, and return the line to write for it.
    pub fn flush_pending(&mut self) -> (r: Option<NetworkAuditLine>)
        ensures
            final(self)@ == old(self)@.flushed(),
            line_content(r) == old(self)@.line_on_flush(),
            final(self)@.wf(),
            final(self).config == old(self).config,
            final(self).pending is None,
            r is Some <==> old(self).pending is Some,
            old(self).pending matches Some(p) ==> {
                &&& r->0.event == p.first_event
                &&& r->0.count == p.count
                &&& r->0.last_seen_unix_ms == if p.count > 1 {
                    Some(p.last_seen_ts)
                } else {
                    None
                }
                &&& r->0.session_id == old(self).config.session_id
                &&& r->0.session_name == old(self).config.session_name
                &&& r->0.nono_pid == old(self).config.nono_pid
            },
    {
        match self.pending.take() {
            Some(pending) => Some(NetworkAuditLine::new(&self.config, pending)),
            None => None,
        }
    }
}

} // verus!

//! The audit log: in-memory buffer plus optional file output.
use crate::audit::clock::{is_current, now_unix_millis};
use crate::audit::config::NetworkAuditConfig;
use crate::audit::dedup::{line_content, FileAuditState, FileView, LineView, NetworkAuditLine};
use crate::audit::event::{
    allowed, allowed_event, denied, denied_event, reverse_proxied, reverse_proxy_event, EventView,
    NetworkAuditEvent, ProxyMode,
};
use vstd::prelude::*;

verus! {

/// Maximum number of in-memory network audit events kept per proxy session.
pub const MAX_AUDIT_EVENTS: usize = 4096;

/// The contents of a list of events.
pub open spec fn contents(events: Seq<NetworkAuditEvent>) -> Seq<EventView> {
    events.map_values(|e: NetworkAuditEvent| e@)
}

/// A buffer after an event arrives: the event is appended, unless the buffer is full.
pub open spec fn recorded(buffer: Seq<EventView>, event: EventView) -> Seq<EventView> {
    if buffer.len() < MAX_AUDIT_EVENTS {
        buffer.push(event)
    } else {
        buffer
    }
}

/// What became of an event that was to be buffered.
#[derive(Debug, Clone, Copy, PartialEq, Eq, Structural)]
pub enum Recorded {
    /// It was appended to the buffer.
    Stored,
    /// The buffer was full, and the event was dropped.
    BufferFull,
    /// The buffer could not be reached, and the event was dropped.
    BufferUnavailable,
}

/// Appends an event to the in-memory buffer, as far as it has room. `None`
/// stands for a buffer that cannot be reached.
pub fn record_event(events: Option<&mut Vec<NetworkAuditEvent>>, event: NetworkAuditEvent) -> (r:
    Recorded)
    ensures
        events matches Some(buffer) ==> final(buffer)@ == if buffer@.len() < 4096 {
            buffer@.push(event)
        } else {
            buffer@
        },
        events matches Some(buffer) ==> contents(final(buffer)@) == recorded(
            contents(buffer@),
            event@,
        ),
        r == (match events {
            Some(buffer) => if buffer@.len() < 4096 {
                Recorded::Stored
            } else {
                Recorded::BufferFull
            },
            None => Recorded::BufferUnavailable,
        }),
{
    match events {
        Some(events) => {
            if events.len() < MAX_AUDIT_EVENTS {
                events.push(event);
                Recorded::Stored
            } else {
                Recorded::BufferFull
            }
        },
        None => Recorded::BufferUnavailable,
    }
}

/// Takes all events out of the in-memory buffer. `None` stands for a buffer
/// that cannot be reached; nothing comes out of it.
pub fn take_events(events: Option<&mut Vec<NetworkAuditEvent>>) -> (r: Vec<NetworkAuditEvent>)
    ensures
        match events {
            Some(buffer) => r@ == buffer@ && final(buffer)@.len() == 0,
            None => r@.len() == 0,
        },
{
    let mut taken: Vec<NetworkAuditEvent> = Vec::new();
    if let Some(events) = events {
        taken.append(events);
    }
    taken
}

/// Audit log: in-memory buffer plus optional file output.
pub struct AuditLog {
    /// The events recorded since the last drain.
    pub events: Vec<NetworkAuditEvent>,
    /// The file output, if it is configured.
    pub file_state: Option<FileAuditState>,
}

/// The mathematical content of an [`AuditLog`].
#[verifier::ext_equal]
pub ghost struct LogView {
    pub events: Seq<EventView>,
    pub file: Option<FileView>,
}

impl View for AuditLog {
    type V = LogView;

    open spec fn view(&self) -> LogView {
        LogView {
            events: contents(self.events@),
            file: match self.file_state {
                Some(s) => Some(s@),
                None => None,
            },
        }
    }
}

impl LogView {
    /// The buffer is within its limit, and the file output is well-formed.
    pub open spec fn wf(self) -> bool {
        &&& self.events.len() <= MAX_AUDIT_EVENTS
        &&& self.file matches Some(f) ==> f.wf()
    }

    /// The file output's counter does not overflow when `event` arrives.
    pub open spec fn accepts(self, event: EventView) -> bool {
        self.file matches Some(f) ==> f.accepts(event)
    }

    /// The log after `event` arrives.
    pub open spec fn after(self, event: EventView) -> LogView {
        LogView {
            events: recorded(self.events, event),
            file: match self.file {
                Some(f) => Some(f.after(event)),
                None => None,
            },
        }
    }

    /// The line that is written to the log file when `event` arrives.
    pub open spec fn line_on(self, event: EventView) -> Option<LineView> {
        match self.file {
            Some(f) => f.line_on(event),
            None => None,
        }
    }

    /// The log after a drain.
    pub open spec fn drained(self) -> LogView {
        LogView {
            events: Seq::empty(),
            file: match self.file {
                Some(f) => Some(f.flushed()),
                None => None,
            },
        }
    }

    /// The line that is written to the log file on a drain.
    pub open spec fn line_on_drain(self) -> Option<LineView> {
        match self.file {
            Some(f) => f.line_on_flush(),
            None => None,
        }
    }
}

/// Create an audit log with optional file output.
#[must_use]
pub fn new_audit_log(file_config: Option<NetworkAuditConfig>) -> (r: AuditLog)
    ensures
        r@ == (LogView {
            events: Seq::empty(),
            file: match file_config {
                Some(config) => Some(FileView { config, pending: None }),
                None => None,
            },
        }),
        r@.wf(),
        r.events@.len() == 0,
        r.file_state is Some <==> file_config is Some,
        file_config matches Some(config) ==> {
            &&& r.file_state->0.config == config
            &&& r.file_state->0.pending is None
        },
{
    let file_state = match file_config {
        Some(config) => Some(FileAuditState::new(config)),
        None => None,
    };
    AuditLog { events: Vec::new(), file_state }
}

/// Drain all network audit events collected so far.
///
/// Flushes any pending deduplicated file entry before draining, so that the
/// last collapsed event gets its line too. That line is returned beside the
/// events, for the caller to write.
#[must_use]
pub fn drain_audit_events(audit_log: &mut AuditLog) -> (r: (
    Vec<NetworkAuditEvent>,
    Option<NetworkAuditLine>,
))
    ensures
        r.0@ == old(audit_log).events@,
        line_content(r.1) == old(audit_log)@.line_on_drain(),
        final(audit_log)@ == old(audit_log)@.drained(),
        final(audit_log)@.wf(),
        final(audit_log).events@.len() == 0,
        final(audit_log).file_state is Some <==> old(audit_log).file_state is Some,
        old(audit_log).file_state is None ==> r.1 is None,
        old(audit_log).file_state matches Some(file) ==> {
            &&& final(audit_log).file_state->0.config == file.config
            &&& final(audit_log).file_state->0.pending is None
            &&& r.1 is Some <==> file.pending is Some
            &&& file.pending matches Some(p) ==> {
                &&& r.1->0.event == p.first_event
                &&& r.1->0.count == p.count
                &&& r.1->0.last_seen_unix_ms == if p.count > 1 {
                    Some(p.last_seen_ts)
                } else {
                    None
                }
                &&& r.1->0.session_id == file.config.session_id
                &&& r.1->0.session_name == file.config.session_name
                &&& r.1->0.nono_pid == file.config.nono_pid
            }
        },
{
    // Flush pending file entry first.
    let line = match &mut audit_log.file_state {
        Some(state) => state.flush_pending(),
        None => None,
    };
    let events = take_events(Some(&mut audit_log.events));
    (events, line)
}

/// Records an event: first for the deduplicated file output, then in the
/// in-memory buffer, which knows no deduplication. Returns the line that the
/// event pushed out, for the caller to write.
pub fn push_event(audit_log: Option<&mut AuditLog>, event: NetworkAuditEvent) -> (r: Option<
    NetworkAuditLine,
>)
    requires
        audit_log matches Some(log) ==> log@.accepts(event@),
    ensures
        match audit_log {
            Some(log) => {
                &&& final(log)@ == log@.after(event@)
                &&& line_content(r) == log@.line_on(event@)
                &&& log@.wf() ==> final(log)@.wf()
                &&& final(log).events@ == if log.events@.len() < 4096 {
                    log.events@.push(event)
                } else {
                    log.events@
                }
                &&& final(log).file_state is Some <==> log.file_state is Some
                &&& log.file_state is None ==> r is None
                &&& log.file_state matches Some(file) ==> {
                    let now = final(log).file_state->0;
                    &&& now.config == file.config
                    &&& now.pending is Some
                    &&& now.pending->0.last_seen_ts == event.timestamp_unix_ms
                    &&& match file.pending {
                        Some(p) => if {
                            &&& p.key.target@ == event.target@
                            &&& p.key.port == event.port
                            &&& p.key.mode == event.mode
                            &&& p.key.decision == event.decision
                            &&& event.timestamp_unix_ms - p.first_event.timestamp_unix_ms <= 30_000
                        } {
                            &&& r is None
                            &&& now.pending->0.first_event == p.first_event
                            &&& now.pending->0.count == p.count + 1
                        } else {
                            &&& r is Some
                            &&& r->0.event == p.first_event
                            &&& r->0.count == p.count
                            &&& now.pending->0.first_event == event
                            &&& now.pending->0.count == 1
                        },
                        None => {
                            &&& r is None
                            &&& now.pending->0.first_event == event
                            &&& now.pending->0.count == 1
                        },
                    }
                }
            },
            None => r is None,
        },
{
    let audit_log = match audit_log {
        Some(audit_log) => audit_log,
        None => {
            return None;
        },
    };
    let line = match &mut audit_log.file_state {
        Some(state) => state.push(&event),
        None => None,
    };
    record_event(Some(&mut audit_log.events), event);
    line
}

/// Log an allowed proxy request.
pub fn log_allowed(
    audit_log: Option<&mut AuditLog>,
    mode: ProxyMode,
    host: &str,
    port: u16,
    method: &str,
) -> (r: Option<NetworkAuditLine>)
    requires
        audit_log matches Some(log) ==> forall|now: u64|
            log@.accepts(#[trigger] allowed(now, mode, host@, port, method@)),
    ensures
        match audit_log {
            Some(log) => exists|now: u64|
                {
                    let event = #[trigger] allowed(now, mode, host@, port, method@);
                    &&& is_current(now)
                    &&& final(log)@ == log@.after(event)
                    &&& line_content(r) == log@.line_on(event)
                    &&& log@.wf() ==> final(log)@.wf()
                    &&& log.events@.len() < 4096 ==> {
                        let event = final(log).events@.last();
                        &&& final(log).events@.len() == log.events@.len() + 1
                        &&& final(log).events@.drop_last() == log.events@
                        &&& event.timestamp_unix_ms == now
                        &&& event.mode is Connect <==> mode is Connect
                        &&& event.mode is Reverse <==> mode is Reverse
                        &&& event.mode is External <==> mode is External
                        &&& event.decision is Allow
                        &&& event.target@ == host@
                        &&& event.port == Some(port)
                        &&& event.method matches Some(m) && m@ == method@
                        &&& event.path is None
                        &&& event.status is None
                        &&& event.reason is None
                    }
                    &&& log.events@.len() >= 4096 ==> final(log).events@ == log.events@
                },
            None => r is None,
        },
{
    push_event(audit_log, allowed_event(now_unix_millis(), mode, host, port, method))
}

/// Log a denied proxy request.
pub fn log_denied(
    audit_log: Option<&mut AuditLog>,
    mode: ProxyMode,
    host: &str,
    port: u16,
    reason: &str,
) -> (r: Option<NetworkAuditLine>)
    requires
        audit_log matches Some(log) ==> forall|now: u64|
            log@.accepts(#[trigger] denied(now, mode, host@, port, reason@)),
    ensures
        match audit_log {
            Some(log) => exists|now: u64|
                {
                    let event = #[trigger] denied(now, mode, host@, port, reason@);
                    &&& is_current(now)
                    &&& final(log)@ == log@.after(event)
                    &&& line_content(r) == log@.line_on(event)
                    &&& log@.wf() ==> final(log)@.wf()
                    &&& log.events@.len() < 4096 ==> {
                        let event = final(log).events@.last();
                        &&& final(log).events@.len() == log.events@.len() + 1
                        &&& final(log).events@.drop_last() == log.events@
                        &&& event.timestamp_unix_ms == now
                        &&& event.mode is Connect <==> mode is Connect
                        &&& event.mode is Reverse <==> mode is Reverse
                        &&& event.mode is External <==> mode is External
                        &&& event.decision is Deny
                        &&& event.target@ == host@
                        &&& event.port == Some(port)
                        &&& event.method is None
                        &&& event.path is None
                        &&& event.status is None
                        &&& event.reason matches Some(s) && s@ == reason@
                    }
                    &&& log.events@.len() >= 4096 ==> final(log).events@ == log.events@
                },
            None => r is None,
        },
{
    push_event(audit_log, denied_event(now_unix_millis(), mode, host, port, reason))
}

/// Log a reverse proxy request with service info.
pub fn log_reverse_proxy(
    audit_log: Option<&mut AuditLog>,
    service: &str,
    method: &str,
    path: &str,
    status: u16,
) -> (r: Option<NetworkAuditLine>)
    requires
        audit_log matches Some(log) ==> forall|now: u64|
            log@.accepts(#[trigger] reverse_proxied(now, service@, method@, path@, status)),
    ensures
        match audit_log {
            Some(log) => exists|now: u64|
                {
                    let event = #[trigger] reverse_proxied(now, service@, method@, path@, status);
                    &&& is_current(now)
                    &&& final(log)@ == log@.after(event)
                    &&& line_content(r) == log@.line_on(event)
                    &&& log@.wf() ==> final(log)@.wf()
                    &&& log.events@.len() < 4096 ==> {
                        let event = final(log).events@.last();
                        &&& final(log).events@.len() == log.events@.len() + 1
                        &&& final(log).events@.drop_last() == log.events@
                        &&& event.timestamp_unix_ms == now
                        &&& event.mode is Reverse
                        &&& event.decision is Allow
                        &&& event.target@ == service@
                        &&& event.port is None
                        &&& event.method matches Some(m) && m@ == method@
                        &&& event.path matches Some(p) && p@ == path@
                        &&& event.status == Some(status)
                        &&& event.reason is None
                    }
                    &&& log.events@.len() >= 4096 ==> final(log).events@ == log.events@
                },
            None => r is None,
        },
{
    push_event(audit_log, reverse_proxy_event(now_unix_millis(), service, method, path, status))
}

} // verus!

//! What each operation does, told in its arguments and its results alone.
use crate::audit::clock::{clamp_unix_millis, exceeds_timestamp, timestamp, whole_millis};
use crate::audit::config::NetworkAuditConfig;
use crate::audit::dedup::{
    key_of, line_content, line_of, DeduplicationKey, FileAuditState, FileView, NetworkAuditLine,
    PendingEvent, PendingView,
};
use crate::audit::event::{
    allowed, allowed_event, denied, denied_event, map_mode, mode_of, reverse_proxied,
    reverse_proxy_event, text, EventView, NetworkAuditEvent, NetworkAuditMode, ProxyMode,
};
use crate::audit::log::{contents, recorded, AuditLog, LogView};
use vstd::prelude::*;

verus! {

/// The event of an allowed request holds what it was made of, and nothing else.
pub proof fn law_allowed_event_fields(
    now: u64,
    mode: ProxyMode,
    host: &str,
    port: u16,
    method: &str,
    event: NetworkAuditEvent,
)
    requires
        call_ensures(allowed_event, (now, mode, host, port, method), event),
    ensures
        event.timestamp_unix_ms == now,
        event.mode is Connect <==> mode is Connect,
        event.mode is Reverse <==> mode is Reverse,
        event.mode is External <==> mode is External,
        event.decision is Allow,
        event.target@ == host@,
        event.port == Some(port),
        event.method is Some && event.method->0@ == method@,
        event.path is None && event.status is None && event.reason is None,
{
}

/// The event of a denied request holds what it was made of, and nothing else.
pub proof fn law_denied_event_fields(
    now: u64,
    mode: ProxyMode,
    host: &str,
    port: u16,
    reason: &str,
    event: NetworkAuditEvent,
)
    requires
        call_ensures(denied_event, (now, mode, host, port, reason), event),
    ensures
        event.timestamp_unix_ms == now,
        event.mode is Connect <==> mode is Connect,
        event.mode is Reverse <==> mode is Reverse,
        event.mode is External <==> mode is External,
        event.decision is Deny,
        event.target@ == host@,
        event.port == Some(port),
        event.reason is Some && event.reason->0@ == reason@,
        event.method is None && event.path is None && event.status is None,
{
}

/// The event of a reverse-proxied request holds what it was made of, and
/// nothing else.
pub proof fn law_reverse_proxy_event_fields(
    now: u64,
    service: &str,
    method: &str,
    path: &str,
    status: u16,
    event: NetworkAuditEvent,
)
    requires
        call_ensures(reverse_proxy_event, (now, service, method, path, status), event),
    ensures
        event.timestamp_unix_ms == now,
        event.mode is Reverse,
        event.decision is Allow,
        event.target@ == service@,
        event.port is None,
        event.method is Some && event.method->0@ == method@,
        event.path is Some && event.path->0@ == path@,
        event.status == Some(status),
        event.reason is None,
{
}

/// The three kinds of event, field by field.
pub proof fn law_event_contents(
    now: u64,
    mode: ProxyMode,
    target: Seq<char>,
    port: u16,
    method: Seq<char>,
    path: Seq<char>,
    status: u16,
    reason: Seq<char>,
)
    ensures
        ({
            let a = allowed(now, mode, target, port, method);
            &&& a.timestamp_unix_ms == now
            &&& a.mode == mode_of(mode)
            &&& a.decision is Allow
            &&& a.target == target
            &&& a.port == Some(port)
            &&& a.method == Some(method)
            &&& a.path is None && a.status is None && a.reason is None
        }),
        ({
            let d = denied(now, mode, target, port, reason);
            &&& d.timestamp_unix_ms == now
            &&& d.mode == mode_of(mode)
            &&& d.decision is Deny
            &&& d.target == target
            &&& d.port == Some(port)
            &&& d.reason == Some(reason)
            &&& d.method is None && d.path is None && d.status is None
        }),
        ({
            let v = reverse_proxied(now, target, method, path, status);
            &&& v.timestamp_unix_ms == now
            &&& v.mode is Reverse
            &&& v.decision is Allow
            &&& v.target == target
            &&& v.port is None
            &&& v.method == Some(method)
            &&& v.path == Some(path)
            &&& v.status == Some(status)
            &&& v.reason is None
        }),
{
}

/// Each proxy mode is recorded as the mode of the same name.
pub proof fn law_mode_is_recorded_by_name(mode: ProxyMode, r: NetworkAuditMode)
    ensures
        call_ensures(map_mode, (mode,), r) ==> r == mode_of(mode),
        mode is Connect <==> mode_of(mode) is Connect,
        mode is Reverse <==> mode_of(mode) is Reverse,
        mode is External <==> mode_of(mode) is External,
{
}

/// Each proxy mode is written as its name in lower case.
pub proof fn law_mode_names(mode: ProxyMode, r: String)
    ensures
        call_ensures(ProxyMode::to_string, (&mode,), r) ==> r@ == mode.label(),
        mode is Connect ==> mode.label() == "connect"@,
        mode is Reverse ==> mode.label() == "reverse"@,
        mode is External ==> mode.label() == "external"@,
{
}

/// The view of an event tells any two apart that differ in the text or value of
/// a field, and no others.
pub proof fn law_event_view_is_faithful(a: NetworkAuditEvent, b: NetworkAuditEvent)
    ensures
        a@.timestamp_unix_ms == a.timestamp_unix_ms,
        a@.mode == a.mode,
        a@.decision == a.decision,
        a@.target == a.target@,
        a@.port == a.port,
        a@.status == a.status,
        a.method is None ==> a@.method is None,
        a.method matches Some(s) ==> a@.method == Some(s@),
        a.path is None ==> a@.path is None,
        a.path matches Some(s) ==> a@.path == Some(s@),
        a.reason is None ==> a@.reason is None,
        a.reason matches Some(s) ==> a@.reason == Some(s@),
        a@ == b@ <==> {
            &&& a.timestamp_unix_ms == b.timestamp_unix_ms
            &&& a.mode == b.mode
            &&& a.decision == b.decision
            &&& a.target@ == b.target@
            &&& a.port == b.port
            &&& a.status == b.status
            &&& a@.method == b@.method
            &&& a@.path == b@.path
            &&& a@.reason == b@.reason
        },
{
}

/// The text of an optional string is there if and only if the string is.
pub proof fn law_text(s: Option<String>)
    ensures
        s is Some <==> text(s) is Some,
        s is Some ==> text(s)->0 == s->0@,
{
}

/// Two events have the same key if and only if they agree in target, port, mode
/// and decision, whatever else they hold.
pub proof fn law_key_is_target_port_mode_decision(a: EventView, b: EventView)
    ensures
        key_of(a) == key_of(b) <==> {
            &&& a.target == b.target
            &&& a.port == b.port
            &&& a.mode == b.mode
            &&& a.decision == b.decision
        },
        key_of(a).target == a.target,
        key_of(a).port == a.port,
        key_of(a).mode == a.mode,
        key_of(a).decision == a.decision,
{
}

/// The keys that are made of two events are equal if and only if the events
/// agree in target, port, mode and decision.
pub proof fn law_keys_of_events(
    a: &NetworkAuditEvent,
    b: &NetworkAuditEvent,
    ka: DeduplicationKey,
    kb: DeduplicationKey,
)
    requires
        call_ensures(DeduplicationKey::from_event, (a,), ka),
        call_ensures(DeduplicationKey::from_event, (b,), kb),
    ensures
        ka@ == kb@ <==> {
            &&& a.target@ == b.target@
            &&& a.port == b.port
            &&& a.mode == b.mode
            &&& a.decision == b.decision
        },
        ka.target@ == a.target@,
        ka.port == a.port,
        ka.mode == a.mode,
        ka.decision == a.decision,
{
}

/// Keys compare as equal if and only if they agree in all four parts.
pub proof fn law_key_equality(a: DeduplicationKey, b: DeduplicationKey)
    ensures
        vstd::std_specs::cmp::PartialEqSpec::eq_spec(&a, &b) <==> {
            &&& a.target@ == b.target@
            &&& a.port == b.port
            &&& a.mode == b.mode
            &&& a.decision == b.decision
        },
        a@ == b@ <==> {
            &&& a.target@ == b.target@
            &&& a.port == b.port
            &&& a.mode == b.mode
            &&& a.decision == b.decision
        },
        a@.target == a.target@,
        a@.port == a.port,
        a@.mode == a.mode,
        a@.decision == a.decision,
{
}

/// An event is counted in the open entry, and nothing is written, if and only if
/// it has the entry's key and comes at most 30 seconds after its first event.
/// Otherwise it starts an entry of its own, and the line of the old one is
/// written, if there was one.
pub proof fn law_event_is_counted_or_starts_anew(file: FileView, event: EventView)
    ensures
        file.after(event).config == file.config,
        file.after(event).pending is Some,
        ({
            let now = file.after(event).pending->0;
            let line = file.line_on(event);
            &&& now.last_seen_ts == event.timestamp_unix_ms
            &&& now.key.target == event.target
            &&& now.key.port == event.port
            &&& now.key.mode == event.mode
            &&& now.key.decision == event.decision
            &&& match file.pending {
                Some(p) => if {
                    &&& p.key.target == event.target
                    &&& p.key.port == event.port
                    &&& p.key.mode == event.mode
                    &&& p.key.decision == event.decision
                    &&& event.timestamp_unix_ms - p.first_event.timestamp_unix_ms <= 30_000
                } {
                    &&& line is None
                    &&& now.first_event == p.first_event
                    &&& now.count == p.count + 1
                } else {
                    &&& line == Some(line_of(file.config, p))
                    &&& now.first_event == event
                    &&& now.count == 1
                },
                None => {
                    &&& line is None
                    &&& now.first_event == event
                    &&& now.count == 1
                },
            }
        }),
{
}

/// A flush leaves nothing pending, and writes the line of the open entry.
pub proof fn law_flush_writes_open_entry(file: FileView)
    ensures
        file.flushed().config == file.config,
        file.flushed().pending is None,
        file.pending is None ==> file.line_on_flush() is None,
        file.pending is Some ==> file.line_on_flush() == Some(
            line_of(file.config, file.pending->0),
        ),
{
}

/// A line holds the entry's first event, its count, the time of its last event
/// if it stands for several, and the session's context.
pub proof fn law_line_contents(config: NetworkAuditConfig, entry: PendingView)
    ensures
        ({
            let line = line_of(config, entry);
            &&& line.event == entry.first_event
            &&& line.count == entry.count
            &&& entry.count > 1 ==> line.last_seen_unix_ms == Some(entry.last_seen_ts)
            &&& entry.count <= 1 ==> line.last_seen_unix_ms is None
            &&& line.session_id == config.session_id@
            &&& config.session_name is None ==> line.session_name is None
            &&& config.session_name is Some ==> line.session_name == Some(
                config.session_name->0@,
            )
            &&& line.nono_pid == config.nono_pid
        }),
{
}

/// The view of a line holds all that the line does.
pub proof fn law_line_view_is_faithful(line: NetworkAuditLine, optional: Option<NetworkAuditLine>)
    ensures
        line@.event == line.event@,
        line@.count == line.count,
        line@.last_seen_unix_ms == line.last_seen_unix_ms,
        line@.session_id == line.session_id@,
        line.session_name is None ==> line@.session_name is None,
        line.session_name is Some ==> line@.session_name == Some(line.session_name->0@),
        line@.nono_pid == line.nono_pid,
        optional is Some <==> line_content(optional) is Some,
        optional is Some ==> line_content(optional) == Some(optional->0@),
{
}

/// The view of a pending entry and of a file's state hold all that these do.
pub proof fn law_file_view_is_faithful(entry: PendingEvent, state: FileAuditState)
    ensures
        entry@.key == entry.key@,
        entry@.first_event == entry.first_event@,
        entry@.last_seen_ts == entry.last_seen_ts,
        entry@.count == entry.count,
        state@.config == state.config,
        state.pending is Some <==> state@.pending is Some,
        state.pending is Some ==> state@.pending == Some(state.pending->0@),
{
}

/// An event is turned away only by an entry that it belongs to and that has
/// already counted as many events as a counter can hold.
pub proof fn law_only_a_full_counter_turns_events_away(file: FileView, event: EventView)
    ensures
        !file.accepts(event) <==> {
            &&& file.pending is Some
            &&& file.pending->0.count >= u64::MAX
            &&& file.pending->0.key.target == event.target
            &&& file.pending->0.key.port == event.port
            &&& file.pending->0.key.mode == event.mode
            &&& file.pending->0.key.decision == event.decision
            &&& event.timestamp_unix_ms - file.pending->0.first_event.timestamp_unix_ms <= 30_000
        },
{
}

/// Of two events in a row, with nothing pending before them, the second is
/// counted with the first if and only if both have the same target, port, mode
/// and decision and it comes at most 30 seconds later. Otherwise the first gets
/// a line of its own at once.
pub proof fn law_two_events_collapse(file: FileView, a: EventView, b: EventView)
    requires
        file.pending is None,
    ensures
        ({
            let together = {
                &&& a.target == b.target
                &&& a.port == b.port
                &&& a.mode == b.mode
                &&& a.decision == b.decision
                &&& b.timestamp_unix_ms - a.timestamp_unix_ms <= 30_000
            };
            let written = file.after(a).line_on(b);
            let last = file.after(a).after(b).line_on_flush();
            &&& file.line_on(a) is None
            &&& last is Some
            &&& together ==> {
                &&& written is None
                &&& last->0.event == a
                &&& last->0.count == 2
                &&& last->0.last_seen_unix_ms == Some(b.timestamp_unix_ms)
            }
            &&& !together ==> {
                &&& written is Some
                &&& written->0.event == a
                &&& written->0.count == 1
                &&& written->0.last_seen_unix_ms is None
                &&& last->0.event == b
                &&& last->0.count == 1
                &&& last->0.last_seen_unix_ms is None
            }
        }),
{
}

/// Denied requests to distinct hosts, ports or by distinct modes are never
/// counted in one line.
pub proof fn law_denials_of_distinct_hosts_stay_apart(
    file: FileView,
    t1: u64,
    t2: u64,
    m1: ProxyMode,
    m2: ProxyMode,
    host1: Seq<char>,
    host2: Seq<char>,
    port1: u16,
    port2: u16,
    reason1: Seq<char>,
    reason2: Seq<char>,
)
    requires
        host1 != host2 || port1 != port2 || m1 != m2,
    ensures
        ({
            let a = denied(t1, m1, host1, port1, reason1);
            let b = denied(t2, m2, host2, port2, reason2);
            &&& file.after(a).line_on(b) is Some
            &&& file.after(a).after(b).pending->0.count == 1
            &&& file.after(a).after(b).pending->0.first_event.target == host2
        }),
{
    let a = denied(t1, m1, host1, port1, reason1);
    let b = denied(t2, m2, host2, port2, reason2);
    law_event_is_counted_or_starts_anew(file, a);
    law_event_is_counted_or_starts_anew(file.after(a), b);
}

/// Allowed requests to distinct hosts, ports or by distinct modes are never
/// counted in one line.
pub proof fn law_allowed_requests_to_distinct_ports_stay_apart(
    file: FileView,
    t1: u64,
    t2: u64,
    m1: ProxyMode,
    m2: ProxyMode,
    host1: Seq<char>,
    host2: Seq<char>,
    port1: u16,
    port2: u16,
    method1: Seq<char>,
    method2: Seq<char>,
)
    requires
        host1 != host2 || port1 != port2 || m1 != m2,
    ensures
        ({
            let a = allowed(t1, m1, host1, port1, method1);
            let b = allowed(t2, m2, host2, port2, method2);
            &&& file.after(a).line_on(b) is Some
            &&& file.after(a).after(b).pending->0.count == 1
            &&& file.after(a).after(b).pending->0.first_event.port == Some(port2)
        }),
{
    let a = allowed(t1, m1, host1, port1, method1);
    let b = allowed(t2, m2, host2, port2, method2);
    law_event_is_counted_or_starts_anew(file, a);
    law_event_is_counted_or_starts_anew(file.after(a), b);
}

/// Reverse-proxied requests to distinct services are never counted in one line,
/// nor is one that comes more than 30 seconds after the first of its line.
pub proof fn law_reverse_proxied_requests_stay_apart(
    file: FileView,
    t1: u64,
    t2: u64,
    service1: Seq<char>,
    service2: Seq<char>,
    method1: Seq<char>,
    method2: Seq<char>,
    path1: Seq<char>,
    path2: Seq<char>,
    status1: u16,
    status2: u16,
)
    requires
        service1 != service2 || (file.pending is None && t2 - t1 > 30_000),
    ensures
        ({
            let a = reverse_proxied(t1, service1, method1, path1, status1);
            let b = reverse_proxied(t2, service2, method2, path2, status2);
            &&& file.after(a).line_on(b) is Some
            &&& file.after(a).after(b).pending->0.count == 1
            &&& file.after(a).after(b).pending->0.first_event.target == service2
            &&& file.after(a).after(b).pending->0.first_event.timestamp_unix_ms == t2
        }),
{
    let a = reverse_proxied(t1, service1, method1, path1, status1);
    let b = reverse_proxied(t2, service2, method2, path2, status2);
    law_event_is_counted_or_starts_anew(file, a);
    law_event_is_counted_or_starts_anew(file.after(a), b);
}

/// An event that arrives is appended to a buffer of less than 4096 events, and
/// changes nothing in a fuller one.
pub proof fn law_buffer_appends_until_full(buffer: Seq<EventView>, event: EventView)
    ensures
        buffer.len() < 4096 ==> {
            &&& recorded(buffer, event).len() == buffer.len() + 1
            &&& recorded(buffer, event).last() == event
            &&& recorded(buffer, event).drop_last() == buffer
        },
        buffer.len() >= 4096 ==> recorded(buffer, event) == buffer,
{
    assert(buffer.push(event).drop_last() =~= buffer);
}

/// A log hands each event to its buffer and, if it has one, to its file output.
pub proof fn law_log_hands_event_on(log: LogView, event: EventView)
    ensures
        log.events.len() < 4096 ==> log.after(event).events == log.events.push(event),
        log.events.len() >= 4096 ==> log.after(event).events == log.events,
        log.file is None ==> {
            &&& log.after(event).file is None
            &&& log.line_on(event) is None
            &&& log.accepts(event)
        },
        log.file is Some ==> {
            &&& log.after(event).file == Some(log.file->0.after(event))
            &&& log.line_on(event) == log.file->0.line_on(event)
            &&& log.accepts(event) <==> log.file->0.accepts(event)
        },
{
}

/// A drain empties the buffer and flushes the file output.
pub proof fn law_drain_empties_and_flushes(log: LogView)
    ensures
        log.drained().events.len() == 0,
        log.file is None ==> log.drained().file is None && log.line_on_drain() is None,
        log.file is Some ==> {
            &&& log.drained().file is Some
            &&& log.drained().file->0.config == log.file->0.config
            &&& log.drained().file->0.pending is None
            &&& log.line_on_drain() == log.file->0.line_on_flush()
        },
{
}

/// The view of a log holds all that the log does, event by event and in order.
pub proof fn law_log_view_is_faithful(log: AuditLog, events: Seq<NetworkAuditEvent>)
    ensures
        contents(events).len() == events.len(),
        forall|k: int|
            0 <= k < events.len() ==> #[trigger] contents(events)[k] == events[k]@,
        log@.events == contents(log.events@),
        log.file_state is Some <==> log@.file is Some,
        log.file_state is Some ==> log@.file == Some(log.file_state->0@),
{
}

/// What a well-formed log is.
pub proof fn law_well_formed_log(log: LogView)
    ensures
        log.wf() <==> {
            &&& log.events.len() <= 4096
            &&& log.file is Some && log.file->0.pending is Some ==> {
                let p = log.file->0.pending->0;
                &&& p.key.target == p.first_event.target
                &&& p.key.port == p.first_event.port
                &&& p.key.mode == p.first_event.mode
                &&& p.key.decision == p.first_event.decision
                &&& p.count >= 1
                &&& p.count == 1 ==> p.last_seen_ts == p.first_event.timestamp_unix_ms
            }
        },
        log.file is Some ==> (log.wf() <==> log.events.len() <= 4096 && log.file->0.wf()),
{
}

/// A timestamp is the number of whole milliseconds since the Unix epoch: not
/// one too few and not one too many. A moment before the epoch gets 0, one past
/// the last timestamp gets the last timestamp.
pub proof fn law_timestamp_counts_whole_milliseconds(secs: u64, nanos: u32)
    ensures
        whole_millis((secs, nanos)) * 1_000_000 <= secs * 1_000_000_000 + nanos,
        secs * 1_000_000_000 + nanos < (whole_millis((secs, nanos)) + 1) * 1_000_000,
        secs * 1_000_000_000 + nanos < (u64::MAX + 1) * 1_000_000 ==> {
            let t = timestamp(Some((secs, nanos)));
            t * 1_000_000 <= secs * 1_000_000_000 + nanos < (t + 1) * 1_000_000
        },
        secs * 1_000_000_000 + nanos >= (u64::MAX + 1) * 1_000_000 ==> timestamp(
            Some((secs, nanos)),
        ) == u64::MAX,
        timestamp(None) == 0,
{
}

/// A clock reading is clamped as its distance from the Unix epoch says, and is
/// reported as too late if and only if it was clamped for that.
pub proof fn law_clamping(secs: u64, nanos: u32, t: u64, late: bool)
    requires
        call_ensures(clamp_unix_millis, (Some((secs, nanos)),), t),
        call_ensures(exceeds_timestamp, (Some((secs, nanos)),), late),
    ensures
        !late ==> t * 1_000_000 <= secs * 1_000_000_000 + nanos < (t + 1) * 1_000_000,
        late ==> t == u64::MAX && secs * 1_000_000_000 + nanos >= (t + 1) * 1_000_000,
{
}

} // verus!

use nono_proxy::audit::{
    allowed_event, clamp_unix_millis, denied_event, drain_audit_events, exceeds_timestamp,
    log_allowed, log_denied, log_reverse_proxy, map_mode, new_audit_log, now_unix_millis,
    push_event, read_clock, record_event, reverse_proxy_event, take_events, DeduplicationKey, FileAuditState, NetworkAuditConfig,
    NetworkAuditDecision, NetworkAuditEvent, NetworkAuditLine, NetworkAuditMode, PendingEvent,
    ProxyMode, Recorded, MAX_AUDIT_EVENTS,
};
use std::path::PathBuf;

fn make_config(log_path: PathBuf) -> NetworkAuditConfig {
    NetworkAuditConfig {
        log_path,
        session_id: "test-session-123".to_string(),
        session_name: Some("my-session".to_string()),
        nono_pid: 42,
    }
}

fn config() -> NetworkAuditConfig {
    make_config(PathBuf::from("/sessions/network.jsonl"))
}

/// The lines that a caller would have appended to the log file.
struct Written(Vec<NetworkAuditLine>);

impl Written {
    fn new() -> Self {
        Written(Vec::new())
    }

    fn write(&mut self, line: Option<NetworkAuditLine>) {
        self.0.extend(line);
    }
}

#[test]
fn log_allowed_records_event() {
    let mut log = new_audit_log(None);

    let _ = log_allowed(
        Some(&mut log),
        ProxyMode::Connect,
        "api.openai.com",
        443,
        "CONNECT",
    );

    let (events, _) = drain_audit_events(&mut log);
    assert_eq!(events.len(), 1);
    let event = &events[0];
    assert_eq!(event.mode, NetworkAuditMode::Connect);
    assert_eq!(event.decision, NetworkAuditDecision::Allow);
    assert_eq!(event.target, "api.openai.com");
    assert_eq!(event.port, Some(443));
    assert_eq!(event.method.as_deref(), Some("CONNECT"));
    assert!(event.timestamp_unix_ms > 0);
    assert_eq!(event.path, None);
    assert_eq!(event.status, None);
    assert_eq!(event.reason, None);
}

#[test]
fn log_denied_records_reason() {
    let mut log = new_audit_log(None);

    let _ = log_denied(
        Some(&mut log),
        ProxyMode::External,
        "169.254.169.254",
        80,
        "blocked by metadata deny list",
    );

    let (events, _) = drain_audit_events(&mut log);
    assert_eq!(events.len(), 1);
    let event = &events[0];
    assert_eq!(event.mode, NetworkAuditMode::External);
    assert_eq!(event.decision, NetworkAuditDecision::Deny);
    assert_eq!(
        event.reason.as_deref(),
        Some("blocked by metadata deny list")
    );
}

#[test]
fn log_reverse_proxy_records_response() {
    let mut log = new_audit_log(None);
    let _ = log_reverse_proxy(Some(&mut log), "openai", "POST", "/v1/chat", 200);

    let (events, _) = drain_audit_events(&mut log);
    assert_eq!(events.len(), 1);
    let mut expected = reverse_proxy_event(0, "openai", "POST", "/v1/chat", 200);
    expected.timestamp_unix_ms = events[0].timestamp_unix_ms;
    assert_eq!(events[0], expected);
    assert_eq!(events[0].mode, NetworkAuditMode::Reverse);
    assert_eq!(events[0].decision, NetworkAuditDecision::Allow);
    assert_eq!(events[0].target, "openai");
    assert_eq!(events[0].port, None);
    assert_eq!(events[0].method.as_deref(), Some("POST"));
    assert_eq!(events[0].path.as_deref(), Some("/v1/chat"));
    assert_eq!(events[0].status, Some(200));
    assert_eq!(events[0].reason, None);
}

#[test]
fn dedup_collapses_identical_events() {
    let mut log = new_audit_log(Some(config()));
    let mut lines = Written::new();

    // Push 5 identical events (same target/port/mode/decision)
    for _ in 0..5 {
        lines.write(log_allowed(
            Some(&mut log),
            ProxyMode::Connect,
            "github.com",
            443,
            "CONNECT",
        ));
    }

    // Nothing flushed yet: all within the same dedup window
    assert_eq!(lines.0.len(), 0, "should not flush while events match");

    // Drain triggers flush
    let (events, line) = drain_audit_events(&mut log);
    lines.write(line);
    assert_eq!(events.len(), 5, "in-memory buffer should have all 5 events");

    assert_eq!(lines.0.len(), 1, "file should have exactly 1 collapsed line");
    assert_eq!(lines.0[0].count, 5);
    assert_eq!(lines.0[0].event.target, "github.com");
    assert_eq!(lines.0[0].session_id, "test-session-123");
    assert_eq!(lines.0[0].session_name.as_deref(), Some("my-session"));
    assert_eq!(lines.0[0].nono_pid, 42);
}

#[test]
fn dedup_flushes_on_different_key() {
    let mut log = new_audit_log(Some(config()));
    let mut lines = Written::new();

    lines.write(log_allowed(Some(&mut log), ProxyMode::Connect, "github.com", 443, "CONNECT"));
    lines.write(log_allowed(Some(&mut log), ProxyMode::Connect, "github.com", 443, "CONNECT"));

    // Different target: flushes the pending github.com entry
    lines.write(log_allowed(Some(&mut log), ProxyMode::Connect, "api.openai.com", 443, "CONNECT"));

    assert_eq!(lines.0.len(), 1, "first group should be flushed");
    assert_eq!(lines.0[0].count, 2);
    assert_eq!(lines.0[0].event.target, "github.com");

    // Drain flushes the second pending entry
    let (_, line) = drain_audit_events(&mut log);
    lines.write(line);

    assert_eq!(lines.0.len(), 2);
    assert_eq!(lines.0[1].count, 1);
    assert_eq!(lines.0[1].event.target, "api.openai.com");
}

#[test]
fn dedup_flushes_on_window_expiry() {
    let mut log = new_audit_log(Some(config()));
    let mut lines = Written::new();
    let state = log.file_state.as_mut().unwrap();

    let base_ts = 1_000_000_000_000u64;
    let event1 = NetworkAuditEvent {
        timestamp_unix_ms: base_ts,
        mode: NetworkAuditMode::Connect,
        decision: NetworkAuditDecision::Allow,
        target: "github.com".to_string(),
        port: Some(443),
        method: Some("CONNECT".to_string()),
        path: None,
        status: None,
        reason: None,
    };

    let event2 = NetworkAuditEvent {
        timestamp_unix_ms: base_ts + 10_000, // +10s, within window
        ..event1.clone()
    };

    let event3 = NetworkAuditEvent {
        timestamp_unix_ms: base_ts + 31_000, // +31s, outside window
        ..event1.clone()
    };

    lines.write(state.push(&event1));
    lines.write(state.push(&event2));

    // No flush yet
    assert_eq!(lines.0.len(), 0);

    // event3 is past the window: flushes the first group
    lines.write(state.push(&event3));

    assert_eq!(lines.0.len(), 1);
    assert_eq!(lines.0[0].count, 2);
    assert_eq!(lines.0[0].last_seen_unix_ms, Some(base_ts + 10_000));

    // Flush remaining
    lines.write(state.flush_pending());

    assert_eq!(lines.0.len(), 2);
    assert_eq!(lines.0[1].count, 1);
}

#[test]
fn single_event_has_count_one_and_no_last_seen() {
    let mut log = new_audit_log(Some(config()));
    let mut lines = Written::new();

    lines.write(log_allowed(Some(&mut log), ProxyMode::Connect, "github.com", 443, "CONNECT"));
    let (_, line) = drain_audit_events(&mut log);
    lines.write(line);

    assert_eq!(lines.0.len(), 1);
    assert_eq!(lines.0[0].count, 1);
    assert!(lines.0[0].last_seen_unix_ms.is_none());
}

#[test]
fn collapsed_event_includes_last_seen() {
    let mut log = new_audit_log(Some(config()));
    let mut lines = Written::new();

    lines.write(log_allowed(Some(&mut log), ProxyMode::Connect, "github.com", 443, "CONNECT"));
    lines.write(log_allowed(Some(&mut log), ProxyMode::Connect, "github.com", 443, "CONNECT"));
    let (_, line) = drain_audit_events(&mut log);
    lines.write(line);

    assert_eq!(lines.0.len(), 1);
    assert_eq!(lines.0[0].count, 2);
    assert!(lines.0[0].last_seen_unix_ms.is_some());
}

#[test]
fn push_event_no_file_without_config() {
    let mut log = new_audit_log(None);
    let line = log_allowed(Some(&mut log), ProxyMode::Connect, "example.com", 443, "CONNECT");
    assert!(line.is_none());
    let (events, line) = drain_audit_events(&mut log);
    assert_eq!(events.len(), 1);
    assert!(line.is_none());
}

#[test]
fn without_a_log_nothing_happens() {
    assert!(log_allowed(None, ProxyMode::Connect, "h", 1, "GET").is_none());
    assert!(log_denied(None, ProxyMode::Connect, "h", 1, "no").is_none());
    assert!(log_reverse_proxy(None, "s", "GET", "/", 200).is_none());
}

#[test]
fn window_is_inclusive_and_opens_with_the_first_event() {
    let mut state = FileAuditState::new(config());
    let at = |ts: u64| allowed_event(ts, ProxyMode::Connect, "github.com", 443, "CONNECT");

    assert!(state.push(&at(1_000)).is_none());
    // The window is not extended by later events.
    assert!(state.push(&at(20_000)).is_none());
    assert!(state.push(&at(31_000)).is_none());
    let line = state.push(&at(31_001)).unwrap();
    assert_eq!(line.count, 3);
    assert_eq!(line.event.timestamp_unix_ms, 1_000);
    assert_eq!(line.last_seen_unix_ms, Some(31_000));
}

#[test]
fn a_clock_that_steps_back_stays_in_the_window() {
    let mut state = FileAuditState::new(config());
    let at = |ts: u64| allowed_event(ts, ProxyMode::Connect, "github.com", 443, "CONNECT");

    assert!(state.push(&at(100_000)).is_none());
    assert!(state.push(&at(5)).is_none());
    let line = state.flush_pending().unwrap();
    assert_eq!(line.count, 2);
    assert_eq!(line.last_seen_unix_ms, Some(5));
}

#[test]
fn every_part_of_the_key_separates_groups() {
    let base = allowed_event(1, ProxyMode::Connect, "github.com", 443, "CONNECT");
    let others = vec![
        allowed_event(1, ProxyMode::Connect, "gitlab.com", 443, "CONNECT"),
        allowed_event(1, ProxyMode::Connect, "github.com", 80, "CONNECT"),
        allowed_event(1, ProxyMode::External, "github.com", 443, "CONNECT"),
        denied_event(1, ProxyMode::Connect, "github.com", 443, "blocked"),
    ];
    for other in others {
        assert!(DeduplicationKey::from_event(&base) != DeduplicationKey::from_event(&other));
        let mut state = FileAuditState::new(config());
        assert!(state.push(&base).is_none());
        assert_eq!(state.push(&other).unwrap().event, base);
    }
    // The method is no part of the key; the line carries the first one.
    let mut state = FileAuditState::new(config());
    assert!(state.push(&base).is_none());
    let get = allowed_event(2, ProxyMode::Connect, "github.com", 443, "GET");
    assert!(DeduplicationKey::from_event(&base) == DeduplicationKey::from_event(&get));
    assert!(state.push(&get).is_none());
    let line = state.flush_pending().unwrap();
    assert_eq!(line.count, 2);
    assert_eq!(line.event.method.as_deref(), Some("CONNECT"));
}

#[test]
fn only_consecutive_events_collapse() {
    let a = allowed_event(1, ProxyMode::Connect, "a", 443, "CONNECT");
    let b = allowed_event(2, ProxyMode::Connect, "b", 443, "CONNECT");
    let run = vec![&a, &a, &b, &a, &b, &b, &b];

    let mut state = FileAuditState::new(config());
    let mut lines = Written::new();
    for event in &run {
        lines.write(state.push(event));
    }
    lines.write(state.flush_pending());

    let summary: Vec<(&str, u64)> =
        lines.0.iter().map(|l| (l.event.target.as_str(), l.count)).collect();
    assert_eq!(summary, vec![("a", 2), ("b", 1), ("a", 1), ("b", 3)]);
    let total: u64 = lines.0.iter().map(|l| l.count).sum();
    assert_eq!(total, 7);
}

#[test]
fn a_flush_closes_the_group() {
    let event = allowed_event(1, ProxyMode::Connect, "a", 443, "CONNECT");
    let mut state = FileAuditState::new(config());
    assert!(state.flush_pending().is_none());
    assert!(state.push(&event).is_none());
    assert_eq!(state.flush_pending().unwrap().count, 1);
    assert!(state.flush_pending().is_none());
    assert!(state.push(&event).is_none());
    assert_eq!(state.flush_pending().unwrap().count, 1);
}

#[test]
fn an_exhausted_counter_accepts_only_another_group() {
    let event = allowed_event(1, ProxyMode::Connect, "a", 443, "CONNECT");
    let other = allowed_event(1, ProxyMode::Connect, "b", 443, "CONNECT");
    let mut state = FileAuditState::new(config());
    assert!(state.accepts(&event));
    state.pending = Some(PendingEvent {
        key: DeduplicationKey::from_event(&event),
        first_event: event.clone(),
        last_seen_ts: 1,
        count: u64::MAX - 1,
    });
    assert!(state.accepts(&event));
    assert!(state.push(&event).is_none());
    assert!(!state.accepts(&event));
    assert!(state.accepts(&other));
    assert_eq!(state.push(&other).unwrap().count, u64::MAX);
}

#[test]
fn the_buffer_keeps_the_first_events_and_the_file_counts_all() {
    let mut log = new_audit_log(Some(config()));
    let mut plain = new_audit_log(None);
    let mut lines = Written::new();
    let sent = MAX_AUDIT_EVENTS + 3;
    for i in 0..sent {
        let event = allowed_event(i as u64, ProxyMode::Connect, "a", 443, "CONNECT");
        assert!(push_event(Some(&mut plain), event.clone()).is_none());
        lines.write(push_event(Some(&mut log), event));
    }
    let (events, line) = drain_audit_events(&mut log);
    lines.write(line);
    assert_eq!(events.len(), 4096);
    for (i, event) in events.iter().enumerate() {
        assert_eq!(event.timestamp_unix_ms, i as u64);
    }
    assert_eq!(lines.0.len(), 1);
    assert_eq!(lines.0[0].count, 4099);
    assert_eq!(lines.0[0].last_seen_unix_ms, Some(4098));
    assert_eq!(drain_audit_events(&mut plain).0, events);

    let (events, line) = drain_audit_events(&mut log);
    assert!(events.is_empty());
    assert!(line.is_none());
}

#[test]
fn recording_reports_what_became_of_the_event() {
    let event = allowed_event(7, ProxyMode::Connect, "a", 443, "CONNECT");
    let mut buffer = Vec::new();
    assert_eq!(record_event(Some(&mut buffer), event.clone()), Recorded::Stored);
    assert_eq!(buffer, vec![event.clone()]);
    while buffer.len() < MAX_AUDIT_EVENTS {
        assert_eq!(record_event(Some(&mut buffer), event.clone()), Recorded::Stored);
    }
    assert_eq!(record_event(Some(&mut buffer), event.clone()), Recorded::BufferFull);
    assert_eq!(buffer.len(), MAX_AUDIT_EVENTS);
    assert_eq!(record_event(None, event), Recorded::BufferUnavailable);

    assert_eq!(take_events(Some(&mut buffer)).len(), MAX_AUDIT_EVENTS);
    assert!(buffer.is_empty());
    assert!(take_events(None).is_empty());
}

#[test]
fn timestamps_are_clamped() {
    assert_eq!(clamp_unix_millis(None), 0);
    assert_eq!(clamp_unix_millis(Some((0, 999_999))), 0);
    assert_eq!(clamp_unix_millis(Some((1_700_000_000, 123_999_999))), 1_700_000_000_123);
    // u64::MAX milliseconds are 18_446_744_073_709_551 s and 615 ms.
    assert_eq!(clamp_unix_millis(Some((18_446_744_073_709_551, 614_000_000))), u64::MAX - 1);
    assert_eq!(clamp_unix_millis(Some((18_446_744_073_709_551, 615_000_000))), u64::MAX);
    assert_eq!(clamp_unix_millis(Some((18_446_744_073_709_551, 616_000_000))), u64::MAX);
    assert_eq!(clamp_unix_millis(Some((u64::MAX, 999_999_999))), u64::MAX);
}

#[test]
fn only_moments_past_the_last_timestamp_exceed_it() {
    assert!(!exceeds_timestamp(None));
    assert!(!exceeds_timestamp(Some((0, 0))));
    assert!(!exceeds_timestamp(Some((18_446_744_073_709_551, 615_999_999))));
    assert!(exceeds_timestamp(Some((18_446_744_073_709_551, 616_000_000))));
    assert!(exceeds_timestamp(Some((u64::MAX, 999_999_999))));
}

#[test]
fn a_clock_reading_has_seconds_and_nanoseconds() {
    let before = now_unix_millis();
    let (secs, nanos) = read_clock().unwrap();
    // 2020-01-01 and 2200-01-01
    assert!(secs > 1_577_836_800);
    assert!(secs < 7_258_118_400);
    assert!(nanos < 1_000_000_000);
    let read = clamp_unix_millis(Some((secs, nanos)));
    assert!(read.abs_diff(before) < 60_000);
}

#[test]
fn the_clock_reads_milliseconds_since_the_epoch() {
    // 2020-01-01 and 2200-01-01
    let now = now_unix_millis();
    assert!(now > 1_577_836_800_000);
    assert!(now < 7_258_118_400_000);
}

#[test]
fn modes_have_names_and_recorded_modes() {
    assert_eq!(ProxyMode::Connect.to_string(), "connect");
    assert_eq!(ProxyMode::Reverse.to_string(), "reverse");
    assert_eq!(ProxyMode::External.to_string(), "external");
    assert_eq!(map_mode(ProxyMode::Connect), NetworkAuditMode::Connect);
    assert_eq!(map_mode(ProxyMode::Reverse), NetworkAuditMode::Reverse);
    assert_eq!(map_mode(ProxyMode::External), NetworkAuditMode::External);
}

#[test]
fn a_cloned_configuration_is_the_same() {
    let original = config();
    let copy = original.clone();
    assert_eq!(copy.log_path, PathBuf::from("/sessions/network.jsonl"));
    assert_eq!(copy.session_id, original.session_id);
    assert_eq!(copy.session_name, original.session_name);
    assert_eq!(copy.nono_pid, 42);
}

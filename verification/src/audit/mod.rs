//! Audit logging for proxy requests.
//!
//! Every request becomes a [`NetworkAuditEvent`]. Events are kept in a bounded
//! in-memory buffer, one by one. When a [`NetworkAuditConfig`] is given, they
//! also go to a JSON-lines file, where consecutive events with the same
//! `(target, port, mode, decision)` within a 30-second window are collapsed
//! into a single line with a `count`. The in-memory buffer is unaffected by
//! that deduplication.
pub mod clock;
pub mod config;
pub mod dedup;
pub mod event;
pub mod laws;
pub mod log;
pub mod operations;
pub mod rotation;

pub use clock::{
    clamp_unix_millis, exceeds_timestamp, now_unix_millis, read_clock, ClockBeforeEpoch,
};
pub use config::NetworkAuditConfig;
pub use dedup::{
    DeduplicationKey, FileAuditState, NetworkAuditLine, PendingEvent, DEDUP_WINDOW_MS,
};
pub use event::{
    allowed_event, denied_event, map_mode, reverse_proxy_event, NetworkAuditDecision,
    NetworkAuditEvent, NetworkAuditMode, ProxyMode,
};
pub use log::{
    drain_audit_events, log_allowed, log_denied, log_reverse_proxy, new_audit_log, push_event,
    record_event, take_events, AuditLog, Recorded, MAX_AUDIT_EVENTS,
};
pub use rotation::{
    plan_rotation, rotated_file_name, LogFile, RotationStep, MAX_LOG_FILE_SIZE, MAX_ROTATED_FILES,
};

//! What is recorded of a proxy request.
use vstd::prelude::*;

verus! {

/// Proxy mode for audit logging.
#[derive(Debug, Clone, Copy, PartialEq, Eq, Structural)]
pub enum ProxyMode {
    /// CONNECT tunnel (host filtering only)
    Connect,
    /// Reverse proxy (credential injection)
    Reverse,
    /// External proxy passthrough (enterprise)
    External,
}

/// The proxy mode as an audit event records it.
#[derive(Debug, Clone, Copy, PartialEq, Eq, Structural)]
pub enum NetworkAuditMode {
    /// CONNECT tunnel
    Connect,
    /// Reverse proxy
    Reverse,
    /// External proxy passthrough
    External,
}

/// What the proxy decided about a request.
#[derive(Debug, Clone, Copy, PartialEq, Eq, Structural)]
pub enum NetworkAuditDecision {
    /// The request went through.
    Allow,
    /// The request was refused.
    Deny,
}

/// One audited proxy request.
#[derive(Debug, PartialEq, Eq)]
pub struct NetworkAuditEvent {
    /// When the request was logged, in milliseconds since the Unix epoch.
    pub timestamp_unix_ms: u64,
    /// The proxy mode the request came through.
    pub mode: NetworkAuditMode,
    /// Whether the request was allowed.
    pub decision: NetworkAuditDecision,
    /// The host, or the service of a reverse-proxied request.
    pub target: String,
    /// The target's port, where one is known.
    pub port: Option<u16>,
    /// The request's method.
    pub method: Option<String>,
    /// The request's path.
    pub path: Option<String>,
    /// The status of the upstream response.
    pub status: Option<u16>,
    /// Why the request was denied.
    pub reason: Option<String>,
}

/// The mathematical content of a [`NetworkAuditEvent`].
pub ghost struct EventView {
    pub timestamp_unix_ms: u64,
    pub mode: NetworkAuditMode,
    pub decision: NetworkAuditDecision,
    pub target: Seq<char>,
    pub port: Option<u16>,
    pub method: Option<Seq<char>>,
    pub path: Option<Seq<char>>,
    pub status: Option<u16>,
    pub reason: Option<Seq<char>>,
}

/// The characters of an optional string.
pub open spec fn text(s: Option<String>) -> Option<Seq<char>> {
    match s {
        Some(s) => Some(s@),
        None => None,
    }
}

impl View for NetworkAuditEvent {
    type V = EventView;

    open spec fn view(&self) -> EventView {
        EventView {
            timestamp_unix_ms: self.timestamp_unix_ms,
            mode: self.mode,
            decision: self.decision,
            target: self.target@,
            port: self.port,
            method: text(self.method),
            path: text(self.path),
            status: self.status,
            reason: text(self.reason),
        }
    }
}

/// A copy of an optional string.
pub(crate) fn copy_text(s: &Option<String>) -> (r: Option<String>)
    ensures
        r == *s,
{
    match s {
        Some(s) => Some(s.clone()),
        None => None,
    }
}

impl Clone for NetworkAuditEvent {
    fn clone(&self) -> (r: Self)
        ensures
            r == *self,
    {
        NetworkAuditEvent {
            timestamp_unix_ms: self.timestamp_unix_ms,
            mode: self.mode,
            decision: self.decision,
            target: self.target.clone(),
            port: self.port,
            method: copy_text(&self.method),
            path: copy_text(&self.path),
            status: self.status,
            reason: copy_text(&self.reason),
        }
    }
}

/// The recorded mode that stands for a proxy mode.
pub open spec fn mode_of(mode: ProxyMode) -> NetworkAuditMode {
    match mode {
        ProxyMode::Connect => NetworkAuditMode::Connect,
        ProxyMode::Reverse => NetworkAuditMode::Reverse,
        ProxyMode::External => NetworkAuditMode::External,
    }
}

/// Translates a proxy mode into the mode that an event records.
pub fn map_mode(mode: ProxyMode) -> (r: NetworkAuditMode)
    ensures
        r == mode_of(mode),
        r is Connect <==> mode is Connect,
        r is Reverse <==> mode is Reverse,
        r is External <==> mode is External,
{
    match mode {
        ProxyMode::Connect => NetworkAuditMode::Connect,
        ProxyMode::Reverse => NetworkAuditMode::Reverse,
        ProxyMode::External => NetworkAuditMode::External,
    }
}

impl ProxyMode {
    /// The mode's name in structured log output.
    pub open spec fn label(self) -> Seq<char> {
        match self {
            ProxyMode::Connect => "connect"@,
            ProxyMode::Reverse => "reverse"@,
            ProxyMode::External => "external"@,
        }
    }

    /// Writes the mode out as its name.
    pub fn to_string(&self) -> (r: String)
        ensures
            r@ == self.label(),
            self is Connect ==> r@ == "connect"@,
            self is Reverse ==> r@ == "reverse"@,
            self is External ==> r@ == "external"@,
    {
        match self {
            ProxyMode::Connect => "connect".to_string(),
            ProxyMode::Reverse => "reverse".to_string(),
            ProxyMode::External => "external".to_string(),
        }
    }
}

/// The event of an allowed request.
pub open spec fn allowed(
    now: u64,
    mode: ProxyMode,
    host: Seq<char>,
    port: u16,
    method: Seq<char>,
) -> EventView {
    EventView {
        timestamp_unix_ms: now,
        mode: mode_of(mode),
        decision: NetworkAuditDecision::Allow,
        target: host,
        port: Some(port),
        method: Some(method),
        path: None,
        status: None,
        reason: None,
    }
}

/// The event of a denied request.
pub open spec fn denied(
    now: u64,
    mode: ProxyMode,
    host: Seq<char>,
    port: u16,
    reason: Seq<char>,
) -> EventView {
    EventView {
        timestamp_unix_ms: now,
        mode: mode_of(mode),
        decision: NetworkAuditDecision::Deny,
        target: host,
        port: Some(port),
        method: None,
        path: None,
        status: None,
        reason: Some(reason),
    }
}

/// The event of a reverse-proxied request.
pub open spec fn reverse_proxied(
    now: u64,
    service: Seq<char>,
    method: Seq<char>,
    path: Seq<char>,
    status: u16,
) -> EventView {
    EventView {
        timestamp_unix_ms: now,
        mode: NetworkAuditMode::Reverse,
        decision: NetworkAuditDecision::Allow,
        target: service,
        port: None,
        method: Some(method),
        path: Some(path),
        status: Some(status),
        reason: None,
    }
}

/// Makes the event of a request that was allowed at time `now`.
pub fn allowed_event(now: u64, mode: ProxyMode, host: &str, port: u16, method: &str) -> (r:
    NetworkAuditEvent)
    ensures
        r@ == allowed(now, mode, host@, port, method@),
        r.timestamp_unix_ms == now,
        r.mode is Connect <==> mode is Connect,
        r.mode is Reverse <==> mode is Reverse,
        r.mode is External <==> mode is External,
        r.decision is Allow,
        r.target@ == host@,
        r.port == Some(port),
        r.method matches Some(m) && m@ == method@,
        r.path is None,
        r.status is None,
        r.reason is None,
{
    NetworkAuditEvent {
        timestamp_unix_ms: now,
        mode: map_mode(mode),
        decision: NetworkAuditDecision::Allow,
        target: host.to_string(),
        port: Some(port),
        method: Some(method.to_string()),
        path: None,
        status: None,
        reason: None,
    }
}

/// Makes the event of a request that was denied at time `now`.
pub fn denied_event(now: u64, mode: ProxyMode, host: &str, port: u16, reason: &str) -> (r:
    NetworkAuditEvent)
    ensures
        r@ == denied(now, mode, host@, port, reason@),
        r.timestamp_unix_ms == now,
        r.mode is Connect <==> mode is Connect,
        r.mode is Reverse <==> mode is Reverse,
        r.mode is External <==> mode is External,
        r.decision is Deny,
        r.target@ == host@,
        r.port == Some(port),
        r.method is None,
        r.path is None,
        r.status is None,
        r.reason matches Some(s) && s@ == reason@,
{
    NetworkAuditEvent {
        timestamp_unix_ms: now,
        mode: map_mode(mode),
        decision: NetworkAuditDecision::Deny,
        target: host.to_string(),
        port: Some(port),
        method: None,
        path: None,
        status: None,
        reason: Some(reason.to_string()),
    }
}

/// Makes the event of a reverse-proxied request that was answered at time `now`.
pub fn reverse_proxy_event(now: u64, service: &str, method: &str, path: &str, status: u16) -> (r:
    NetworkAuditEvent)
    ensures
        r@ == reverse_proxied(now, service@, method@, path@, status),
        r.timestamp_unix_ms == now,
        r.mode is Reverse,
        r.decision is Allow,
        r.target@ == service@,
        r.port is None,
        r.method matches Some(m) && m@ == method@,
        r.path matches Some(p) && p@ == path@,
        r.status == Some(status),
        r.reason is None,
{
    NetworkAuditEvent {
        timestamp_unix_ms: now,
        mode: NetworkAuditMode::Reverse,
        decision: NetworkAuditDecision::Allow,
        target: service.to_string(),
        port: None,
        method: Some(method.to_string()),
        path: Some(path.to_string()),
        status: Some(status),
        reason: None,
    }
}

} // verus!

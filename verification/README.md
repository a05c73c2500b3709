# nono-proxy audit log

The audit trail of a network proxy, verified with Verus.

- `src/audit/event.rs`: what is recorded of a request.
- `src/audit/clock.rs`: timestamps.
- `src/audit/config.rs`: where a session's lines go.
- `src/audit/dedup.rs`: collapsing of consecutive events into lines.
- `src/audit/log.rs`: the log itself, buffer and file output together.
- `src/audit/rotation.rs`: rotation of the log file, with its laws.
- `src/audit/laws.rs`: what holds over whole runs of events.

The library does no I/O and takes no locks. A function that decides on file
output returns the line to write. `app/` shares a log between tasks, writes the
lines as JSON, carries rotations out, and reports through `tracing`.

Trusted are the system clock (`SystemTime::now`, `SystemTime::duration_since`)
and `PathBuf::clone`; see the comments above them.

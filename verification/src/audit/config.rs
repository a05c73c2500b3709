//! Where a session's audit lines go, and which session they belong to.
use crate::audit::event::copy_text;
use std::path::PathBuf;
use vstd::prelude::*;

verus! {

/// `std::path::PathBuf`, carried from the configuration to the file writer.
#[verifier::external_type_specification]
#[verifier::external_body]
pub struct ExPathBuf(PathBuf);

/// `PathBuf::clone` returns a duplicate of the path it is called on.
pub assume_specification[ <PathBuf as Clone>::clone ](path: &PathBuf) -> (r: PathBuf)
    ensures
        r == *path,
;

/// Configuration for writing network audit events to a JSONL file.
#[derive(Debug)]
pub struct NetworkAuditConfig {
    /// Path to the JSONL log file (e.g. `~/.nono/sessions/network.jsonl`).
    pub log_path: PathBuf,
    /// Session ID from the nono session registry.
    pub session_id: String,
    /// Human-readable session name.
    pub session_name: Option<String>,
    /// PID of the nono process (the unsandboxed supervisor).
    pub nono_pid: u32,
}

impl Clone for NetworkAuditConfig {
    fn clone(&self) -> (r: Self)
        ensures
            r == *self,
    {
        NetworkAuditConfig {
            log_path: self.log_path.clone(),
            session_id: self.session_id.clone(),
            session_name: copy_text(&self.session_name),
            nono_pid: self.nono_pid,
        }
    }
}

} // verus!

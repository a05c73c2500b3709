//! The audit trail of a credential-injecting network proxy, as a verified
//! library: what is recorded of each request, what stays in memory, which
//! lines go to the log file, and when and how that file is rotated.
//!
//! Nothing here opens a file or takes a lock. Functions that decide on file
//! output return what is to be written; the caller writes it.
pub mod audit;

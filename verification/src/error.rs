//! Errors surfaced by the announcement core.
//!
//! Startup-time failures (a missing ring entry, a failed resource
//! sample) abort the daemon; steady-state failures are reported by the
//! surrounding loops and swallowed there.

use vstd::prelude::*;

verus! {

/// Failure of an announcement-core operation.
#[derive(Debug, Clone)]
pub enum AnnounceError {
    /// A healthy task's route key was absent from the hash ring (or the
    /// task id was too short to form one).  Carries the task id.
    HashRing(String),
    /// A stream-frame send exceeded `REQUEST_TIMEOUT_MS`.
    SendTimeout,
    /// Sampling host resources (the filesystem statistics of the
    /// storage directory) failed.
    Resource,
    /// A control-plane RPC failed; carries a short description from the
    /// transport.
    Rpc(String),
}

impl AnnounceError {
    /// True for errors that abort daemon startup when returned from the
    /// construction path, as opposed to per-task errors that are only
    /// logged.
    pub fn aborts_startup(&self) -> (r: bool)
        ensures
            r == (self is HashRing || self is Resource || self is Rpc),
    {
        match self {
            AnnounceError::HashRing(_) => true,
            AnnounceError::Resource => true,
            AnnounceError::Rpc(_) => true,
            AnnounceError::SendTimeout => false,
        }
    }
}

} // verus!

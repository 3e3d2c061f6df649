//! Announcement core of a peer-to-peer content distribution daemon.
//!
//! The daemon keeps itself visible in two control planes: a Manager
//! (registry of seed peers) and a fleet of Schedulers (piece-transfer
//! orchestrators).  This library holds the verified decision logic of
//! that announcement subsystem: building the registration and heartbeat
//! requests, reconciling the locally stored task inventory against the
//! scheduler hash ring, chunking bulk peer announcements, and the
//! lifecycle state machines of the two announcers.  The surrounding
//! daemon drives the state machines, performs the RPCs and feeds the
//! outcomes back in.

use vstd::prelude::*;

pub mod config;
pub mod error;
pub mod fanout;
pub mod laws;
pub mod manager;
pub mod messages;
pub mod reconciler;
pub mod ring;
pub mod scheduler;
pub mod telemetry;

verus! {

/// Number of peers carried by one frame of a bulk peer announcement.
pub const MAX_PEERS_PER_FRAME: usize = 10;

/// Number of bulk peer announcements allowed in flight at once.
pub const MAX_CONCURRENT_ANNOUNCES: usize = 5;

/// Milliseconds a single stream-frame send may take before the
/// timeout escape triggers.
pub const REQUEST_TIMEOUT_MS: u64 = 10_000;

} // verus!

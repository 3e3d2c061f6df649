//! Steady-state lifecycle of the scheduler announcer.
//!
//! After the initial host announcement and the bulk peer announcement,
//! the announcer republishes the host record on every timer tick until
//! the shutdown signal fires, then deletes the host record and stops.
//! The surrounding daemon owns the timer, the shutdown broadcast and
//! the RPCs; this state machine makes the decisions.

use vstd::prelude::*;
use crate::config::Config;
use crate::messages::DeleteHostRequest;

verus! {

/// State machine of the scheduler announcer's steady-state loop.
pub struct SchedulerAnnouncer {
    /// Daemon configuration the announcements are derived from.
    pub config: Config,
    /// Stable identity of this host in every scheduler RPC.
    pub host_id: String,
    /// False once the shutdown signal has been handled; no further
    /// announcement is then made.
    pub running: bool,
}

impl SchedulerAnnouncer {
    /// Whether a timer tick leads to a host announcement in this state.
    pub open spec fn spec_announces_on_tick(self) -> bool {
        self.running
    }

    /// Creates the announcer in its running state.
    pub fn new(config: Config, host_id: String) -> (r: Self)
        ensures
            r.config == config,
            r.host_id == host_id,
            r.running,
    {
        SchedulerAnnouncer { config, host_id, running: true }
    }

    /// Decides whether the tick that just fired leads to a host
    /// announcement.  Once shutdown has been handled no tick does:
    /// shutdown preempts the scheduling of new announcements.
    pub fn on_tick(&self) -> (announce: bool)
        ensures
            announce == self.spec_announces_on_tick(),
    {
        self.running
    }

    /// Handles the shutdown signal: stops the loop and hands out the
    /// single host-deletion request, carrying this host's identity.
    pub fn on_shutdown(&mut self) -> (r: DeleteHostRequest)
        requires
            old(self).running,
        ensures
            final(self).config == old(self).config,
            final(self).host_id == old(self).host_id,
            !final(self).running,
            !final(self).spec_announces_on_tick(),
            r.host_id == old(self).host_id,
    {
        self.running = false;
        DeleteHostRequest { host_id: self.host_id.clone() }
    }
}

} // verus!

//! Lifecycle of the seed-peer registration with the manager.
//!
//! The announcer registers the host as a seed peer once at startup,
//! waits for the shutdown signal, and deregisters on the way out.
//! When the seed-peer role is disabled it stays passive and issues no
//! manager RPC at all.  The surrounding daemon performs the RPCs and
//! feeds their outcomes back into this state machine.

use vstd::prelude::*;
use crate::config::Config;
use crate::messages::{DeleteSeedPeerRequest, SourceType, UpdateSeedPeerRequest};

verus! {

/// The registration request derived from the configuration.
pub open spec fn spec_update_seed_peer_request(c: Config) -> UpdateSeedPeerRequest {
    UpdateSeedPeerRequest {
        source_type: SourceType::SeedPeer,
        hostname: c.host.hostname,
        kind: c.seed_peer.kind,
        idc: c.host.idc,
        location: c.host.location,
        ip: c.host.ip,
        port: c.upload_port as i32,
        download_port: c.upload_port as i32,
        seed_peer_cluster_id: c.seed_peer.cluster_id,
    }
}

/// The deregistration request derived from the configuration.
pub open spec fn spec_delete_seed_peer_request(c: Config) -> DeleteSeedPeerRequest {
    DeleteSeedPeerRequest {
        source_type: SourceType::SeedPeer,
        hostname: c.host.hostname,
        ip: c.host.ip,
        seed_peer_cluster_id: c.seed_peer.cluster_id,
    }
}

/// Builds the seed-peer registration request.
pub fn make_update_seed_peer_request(c: &Config) -> (r: UpdateSeedPeerRequest)
    ensures
        r == spec_update_seed_peer_request(*c),
{
    UpdateSeedPeerRequest {
        source_type: SourceType::SeedPeer,
        hostname: c.host.hostname.clone(),
        kind: c.seed_peer.kind,
        idc: crate::messages::copy_opt_string(&c.host.idc),
        location: crate::messages::copy_opt_string(&c.host.location),
        ip: c.host.ip.clone(),
        port: c.upload_port as i32,
        download_port: c.upload_port as i32,
        seed_peer_cluster_id: c.seed_peer.cluster_id,
    }
}

/// Builds the seed-peer deregistration request.
pub fn make_delete_seed_peer_request(c: &Config) -> (r: DeleteSeedPeerRequest)
    ensures
        r == spec_delete_seed_peer_request(*c),
{
    DeleteSeedPeerRequest {
        source_type: SourceType::SeedPeer,
        hostname: c.host.hostname.clone(),
        ip: c.host.ip.clone(),
        seed_peer_cluster_id: c.seed_peer.cluster_id,
    }
}

/// Law: the deregistration sent at shutdown names the same hostname,
/// ip and cluster as the registration sent at startup, for every
/// configuration.
pub proof fn lemma_registration_deregistration_paired(c: Config)
    ensures
        spec_delete_seed_peer_request(c).hostname == spec_update_seed_peer_request(c).hostname,
        spec_delete_seed_peer_request(c).ip == spec_update_seed_peer_request(c).ip,
        spec_delete_seed_peer_request(c).seed_peer_cluster_id == spec_update_seed_peer_request(
            c,
        ).seed_peer_cluster_id,
        spec_delete_seed_peer_request(c).source_type == spec_update_seed_peer_request(
            c,
        ).source_type,
{
}

/// One RPC issued to the manager during the announcer's lifecycle, in
/// order of issue.
#[derive(Debug, Clone)]
pub enum ManagerCall {
    Update(UpdateSeedPeerRequest),
    Delete(DeleteSeedPeerRequest),
}

/// Where the manager announcer stands in its lifecycle.
#[derive(Debug, Clone, Copy, PartialEq, Eq, Structural)]
pub enum ManagerPhase {
    /// Constructed, not yet started.
    Idle,
    /// Registration request handed out, outcome not yet reported.
    Registering,
    /// Registered with the manager; awaiting shutdown.
    Registered,
    /// Seed-peer role disabled; awaiting shutdown without any RPC.
    Passive,
    /// Registration failed; daemon startup aborts.
    Aborted,
    /// Shutdown handled; the announcer is done.
    Stopped,
}

/// State machine of the manager announcer.
pub struct ManagerAnnouncer {
    /// Daemon configuration the requests are derived from.
    pub config: Config,
    /// Current lifecycle phase.
    pub phase: ManagerPhase,
}

impl ManagerAnnouncer {
    /// Creates the announcer; no RPC is issued yet.
    pub fn new(config: Config) -> (r: Self)
        ensures
            r.config == config,
            r.phase == ManagerPhase::Idle,
    {
        ManagerAnnouncer { config, phase: ManagerPhase::Idle }
    }

    /// Starts the lifecycle.  With the seed-peer role enabled it hands
    /// out the registration request to send, exactly once; otherwise it
    /// goes passive and nothing is ever sent to the manager.
    pub fn start(&mut self) -> (r: Option<UpdateSeedPeerRequest>)
        requires
            old(self).phase == ManagerPhase::Idle,
        ensures
            final(self).config == old(self).config,
            old(self).config.seed_peer.enable ==> r == Some(
                spec_update_seed_peer_request(old(self).config),
            ) && final(self).phase == ManagerPhase::Registering,
            !old(self).config.seed_peer.enable ==> r is None && final(self).phase
                == ManagerPhase::Passive,
    {
        if self.config.seed_peer.enable {
            self.phase = ManagerPhase::Registering;
            Some(make_update_seed_peer_request(&self.config))
        } else {
            self.phase = ManagerPhase::Passive;
            None
        }
    }

    /// Reports the outcome of the registration RPC.  A failure aborts
    /// daemon startup; no deregistration will be attempted for it.
    pub fn on_update_result(&mut self, ok: bool)
        requires
            old(self).phase == ManagerPhase::Registering,
        ensures
            final(self).config == old(self).config,
            ok ==> final(self).phase == ManagerPhase::Registered,
            !ok ==> final(self).phase == ManagerPhase::Aborted,
    {
        if ok {
            self.phase = ManagerPhase::Registered;
        } else {
            self.phase = ManagerPhase::Aborted;
        }
    }

    /// Handles the shutdown signal.  The deregistration request comes
    /// out if and only if the registration succeeded earlier; its
    /// failure is logged by the caller and never retried, so this is
    /// the only attempt.
    pub fn on_shutdown(&mut self) -> (r: Option<DeleteSeedPeerRequest>)
        requires
            old(self).phase == ManagerPhase::Registered || old(self).phase
                == ManagerPhase::Passive,
        ensures
            final(self).config == old(self).config,
            final(self).phase == ManagerPhase::Stopped,
            old(self).phase == ManagerPhase::Registered ==> r == Some(
                spec_delete_seed_peer_request(old(self).config),
            ),
            old(self).phase == ManagerPhase::Passive ==> r is None,
    {
        let registered = matches!(self.phase, ManagerPhase::Registered);
        self.phase = ManagerPhase::Stopped;
        if registered {
            Some(make_delete_seed_peer_request(&self.config))
        } else {
            None
        }
    }
}

/// Law, as the composed lifecycle: the manager RPCs of one whole run,
/// for a given outcome of the registration RPC.  With the seed-peer
/// role disabled, no manager RPC at all; with it enabled, one
/// registration, and exactly one deregistration — naming the same
/// hostname, ip and cluster — if and only if the registration
/// succeeded.  The daemon's loop awaits the registration outcome and
/// the shutdown signal between these steps; the calls and their order
/// are decided here.
pub fn manager_lifecycle(config: Config, update_ok: bool) -> (calls: Vec<ManagerCall>)
    ensures
        !config.seed_peer.enable ==> calls@.len() == 0,
        config.seed_peer.enable && update_ok ==> {
            &&& calls@.len() == 2
            &&& calls@[0] == ManagerCall::Update(spec_update_seed_peer_request(config))
            &&& calls@[1] == ManagerCall::Delete(spec_delete_seed_peer_request(config))
        },
        config.seed_peer.enable && !update_ok ==> calls@.len() == 1 && calls@[0]
            == ManagerCall::Update(spec_update_seed_peer_request(config)),
{
    let mut announcer = ManagerAnnouncer::new(config);
    let mut calls: Vec<ManagerCall> = Vec::new();
    match announcer.start() {
        Some(update) => {
            calls.push(ManagerCall::Update(update));
            announcer.on_update_result(update_ok);
            if update_ok {
                if let Some(delete) = announcer.on_shutdown() {
                    calls.push(ManagerCall::Delete(delete));
                }
            }
        },
        None => {
            if let Some(delete) = announcer.on_shutdown() {
                calls.push(ManagerCall::Delete(delete));
            }
        },
    }
    calls
}

} // verus!

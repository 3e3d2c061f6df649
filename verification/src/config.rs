//! Daemon configuration as the announcement core reads it.
//!
//! The surrounding daemon parses its configuration file and hands the
//! core these plain values.  Durations are carried in milliseconds.

use vstd::prelude::*;

verus! {

/// Role of the host inside the cluster.
#[derive(Debug, Clone, Copy, PartialEq, Eq, Structural)]
pub enum HostType {
    Normal,
    SuperSeed,
    StrongSeed,
    WeakSeed,
}

impl HostType {
    /// Numeric code of the host type on the wire.
    pub fn code(&self) -> (r: u32)
        ensures
            r == self.spec_code(),
    {
        match self {
            HostType::Normal => 0,
            HostType::SuperSeed => 1,
            HostType::StrongSeed => 2,
            HostType::WeakSeed => 3,
        }
    }

    /// Numeric code of the host type on the wire.
    pub open spec fn spec_code(self) -> u32 {
        match self {
            HostType::Normal => 0,
            HostType::SuperSeed => 1,
            HostType::StrongSeed => 2,
            HostType::WeakSeed => 3,
        }
    }

    /// Name of the host type in the seed-peer registration record.
    pub fn name(&self) -> (r: &'static str)
        ensures
            r@ == self.spec_name(),
    {
        proof {
            reveal_strlit("normal");
            reveal_strlit("super");
            reveal_strlit("strong");
            reveal_strlit("weak");
        }
        match self {
            HostType::Normal => "normal",
            HostType::SuperSeed => "super",
            HostType::StrongSeed => "strong",
            HostType::WeakSeed => "weak",
        }
    }

    /// Name of the host type in the seed-peer registration record.
    pub open spec fn spec_name(self) -> Seq<char> {
        match self {
            HostType::Normal => "normal"@,
            HostType::SuperSeed => "super"@,
            HostType::StrongSeed => "strong"@,
            HostType::WeakSeed => "weak"@,
        }
    }
}

/// Identity of this host as configured.
#[derive(Debug, Clone)]
pub struct HostConfig {
    /// Host name published in every registration.
    pub hostname: String,
    /// Address of this host, already rendered as text.
    pub ip: String,
    /// Internet data center, if configured.
    pub idc: Option<String>,
    /// Physical location, if configured.
    pub location: Option<String>,
}

/// Seed-peer section of the configuration.
#[derive(Debug, Clone)]
pub struct SeedPeerConfig {
    /// Whether this daemon registers itself as a seed peer.
    pub enable: bool,
    /// Kind of seed peer it registers as.
    pub kind: HostType,
    /// Cluster the seed peer belongs to.
    pub cluster_id: u64,
}

/// The slice of the daemon configuration the announcement core reads.
#[derive(Debug, Clone)]
pub struct Config {
    /// Host identity.
    pub host: HostConfig,
    /// Seed-peer registration settings.
    pub seed_peer: SeedPeerConfig,
    /// Port of the upload server, published as both the peer port and
    /// the download port.
    pub upload_port: u16,
    /// Interval between periodic host announcements, in milliseconds.
    pub announce_interval_ms: u64,
    /// Time a finished task stays announceable, in milliseconds.
    pub task_ttl_ms: u64,
    /// Directory of the local content store, whose filesystem is
    /// sampled for disk telemetry.
    pub storage_dir: String,
}

} // verus!

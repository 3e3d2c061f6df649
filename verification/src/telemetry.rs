//! Telemetry collection: the host snapshot published on every
//! announcement.
//!
//! The identity fields come from the configuration and the stable host
//! id; the resource fields are sampled from the machine on each call
//! through `sysinfo` and `fs2`.  Sampled values depend on the machine
//! and the moment, so nothing is promised of them beyond the
//! consistency the code itself establishes; the identity fields are
//! pinned exactly.  Usage percentages are ratios computed at the edge
//! of the daemon and are not part of this model.

use vstd::prelude::*;
use crate::config::{Config, HostType};
use crate::error::AnnounceError;
use crate::messages::{
    AnnounceHostRequest, BuildInfo, CpuStats, DiskStats, Host, MemoryStats, NetworkStats,
};

verus! {

/// Declares `sysinfo::System`, the handle all machine sampling goes
/// through.  The core never looks inside it.
#[verifier::external_type_specification]
#[verifier::external_body]
pub struct ExSystem(sysinfo::System);

/// Relies on `sysinfo::System::new_all`: creates a system handle with
/// everything sampled once.  The values depend on the machine, so
/// nothing is promised.
pub assume_specification [ sysinfo::System::new_all ]() -> sysinfo::System;

/// Relies on `sysinfo::System::refresh_all`: resamples everything.
/// The values depend on the machine, so nothing is promised.
pub assume_specification [ sysinfo::System::refresh_all ](s: &mut sysinfo::System);

/// Relies on `sysinfo::System::total_memory`: total RAM in bytes.
pub assume_specification [ sysinfo::System::total_memory ](s: &sysinfo::System) -> u64;

/// Relies on `sysinfo::System::available_memory`: available RAM in bytes.
pub assume_specification [ sysinfo::System::available_memory ](s: &sysinfo::System) -> u64;

/// Relies on `sysinfo::System::used_memory`: used RAM in bytes.
pub assume_specification [ sysinfo::System::used_memory ](s: &sysinfo::System) -> u64;

/// Relies on `sysinfo::System::free_memory`: unallocated RAM in bytes.
pub assume_specification [ sysinfo::System::free_memory ](s: &sysinfo::System) -> u64;

/// Relies on `sysinfo::System::physical_core_count`: number of
/// physical cores, when the platform reports one.
pub assume_specification [ sysinfo::System::physical_core_count ]() -> Option<usize>;

/// Relies on `sysinfo::System::os_version`: version of the running
/// operating system, when the platform reports one.
pub assume_specification [ sysinfo::System::os_version ]() -> Option<String>;

/// Relies on `sysinfo::System::kernel_version`: version of the running
/// kernel, when the platform reports one.
pub assume_specification [ sysinfo::System::kernel_version ]() -> Option<String>;

/// Relies on `fs2::statvfs`: filesystem statistics of the given path,
/// reduced to (total space, available space) in bytes.  The values
/// depend on the machine, so nothing is promised of them; `None`
/// reports the failure of the underlying system call.
#[verifier::external_body]
fn statvfs_spaces(dir: &str) -> (r: Option<(u64, u64)>)
{
    match fs2::statvfs(std::path::Path::new(dir)) {
        Ok(stats) => Some((stats.total_space(), stats.available_space())),
        Err(_) => None,
    }
}

/// Operating-system identity published in the host record.  The static
/// names are compiled into the daemon; the versions are sampled.
#[derive(Debug, Clone)]
pub struct OsInfo {
    pub os: String,
    pub platform: String,
    pub platform_family: String,
    pub platform_version: String,
    pub kernel_version: String,
}

/// Samples the processor shape.  The platform reports physical cores
/// only, so the logical count repeats the physical count, kept so for
/// wire compatibility; an unknown count defaults to zero.
pub fn collect_cpu_stats() -> (r: CpuStats)
    ensures
        r.logical_count == r.physical_count,
{
    let count: u32 = match sysinfo::System::physical_core_count() {
        Some(c) => #[verifier::truncate] (c as u32),
        None => 0,
    };
    CpuStats { logical_count: count, physical_count: count }
}

/// Samples memory, in bytes.  The values depend on the machine at this
/// moment, so nothing is promised of them.
fn collect_memory_stats() -> MemoryStats {
    let mut sys = sysinfo::System::new_all();
    sys.refresh_all();
    MemoryStats {
        total: sys.total_memory(),
        available: sys.available_memory(),
        used: sys.used_memory(),
        free: sys.free_memory(),
    }
}

/// Disk statistics derived from (total, available) space: used space
/// is what is not available, and the inode fields are reported as
/// zero, unimplemented.
pub open spec fn spec_disk_stats(total: u64, available: u64) -> DiskStats {
    DiskStats {
        total,
        free: available,
        used: if available <= total {
            (total - available) as u64
        } else {
            0
        },
        inodes_total: 0,
        inodes_used: 0,
        inodes_free: 0,
    }
}

/// Derives the disk record from sampled (total, available) space.
pub fn disk_stats_from_spaces(total: u64, available: u64) -> (r: DiskStats)
    ensures
        r == spec_disk_stats(total, available),
        available <= total ==> r.used + r.free == r.total,
{
    let used: u64 = if available <= total {
        total - available
    } else {
        0
    };
    DiskStats {
        total,
        free: available,
        used,
        inodes_total: 0,
        inodes_used: 0,
        inodes_free: 0,
    }
}

/// Samples the filesystem of the storage directory.  When the
/// underlying statistics call fails the cycle is skipped with a
/// resource error, as nothing sensible can be reported.
pub fn collect_disk_stats(storage_dir: &str) -> (r: Result<DiskStats, AnnounceError>)
    ensures
        match r {
            Ok(d) => {
                &&& d == spec_disk_stats(d.total, d.free)
                &&& (d.free <= d.total ==> d.used + d.free == d.total)
            },
            Err(e) => e is Resource,
        },
{
    match statvfs_spaces(storage_dir) {
        Some((total, available)) => Ok(disk_stats_from_spaces(total, available)),
        None => Err(AnnounceError::Resource),
    }
}

/// Assembles the operating-system identity: the compiled-in names,
/// plus the sampled system and kernel versions (empty when the
/// platform reports none).
pub fn collect_os_info(os_name: String, platform_family: String) -> (r: OsInfo)
    ensures
        r.os == os_name,
        r.platform == os_name,
        r.platform_family == platform_family,
{
    let platform = os_name.clone();
    let platform_version = match sysinfo::System::os_version() {
        Some(v) => v,
        None => String::new(),
    };
    let kernel_version = match sysinfo::System::kernel_version() {
        Some(v) => v,
        None => String::new(),
    };
    OsInfo { os: os_name, platform, platform_family, platform_version, kernel_version }
}

/// The host type published to the schedulers: the configured seed-peer
/// kind when the seed-peer role is enabled, normal otherwise.
pub open spec fn spec_host_type_code(c: Config) -> u32 {
    (if c.seed_peer.enable {
        c.seed_peer.kind
    } else {
        HostType::Normal
    }).spec_code()
}

/// The identity part of a host announcement: every field that must be
/// stable across announcement cycles, pinned to the configuration and
/// the stable host id.
pub open spec fn spec_identity_pinned(req: AnnounceHostRequest, c: Config, host_id: String) -> bool {
    &&& req.host.id == host_id
    &&& req.host.hostname == c.host.hostname
    &&& req.host.ip == c.host.ip
    &&& req.host.port == c.upload_port as i32
    &&& req.host.download_port == c.upload_port as i32
    &&& req.host.type_code == spec_host_type_code(c)
    &&& req.host.scheduler_cluster_id == 0
    &&& req.host.network.idc == c.host.idc
    &&& req.host.network.location == c.host.location
    &&& req.host.network.tcp_connection_count == 0
    &&& req.host.network.upload_tcp_connection_count == 0
    &&& req.interval_ms == c.announce_interval_ms
}

/// Builds the host announcement: identity from the configuration and
/// host id, resources freshly sampled from the machine.  Fails with a
/// resource error exactly when the disk sample fails, in which case
/// the caller skips the cycle.
pub fn make_announce_host_request(
    config: &Config,
    host_id: &String,
    os_name: String,
    platform_family: String,
    build: BuildInfo,
) -> (r: Result<AnnounceHostRequest, AnnounceError>)
    ensures
        match r {
            Ok(req) => {
                &&& spec_identity_pinned(req, *config, *host_id)
                &&& req.host.os == os_name
                &&& req.host.platform == os_name
                &&& req.host.platform_family == platform_family
                &&& req.host.build == build
                &&& req.host.cpu.logical_count == req.host.cpu.physical_count
                &&& (req.host.disk.free <= req.host.disk.total ==> req.host.disk.used
                    + req.host.disk.free == req.host.disk.total)
            },
            Err(e) => e is Resource,
        },
{
    let disk = match collect_disk_stats(config.storage_dir.as_str()) {
        Ok(d) => d,
        Err(e) => {
            return Err(e);
        },
    };
    let cpu = collect_cpu_stats();
    let memory = collect_memory_stats();
    let os = collect_os_info(os_name, platform_family);
    let host_type = if config.seed_peer.enable {
        config.seed_peer.kind
    } else {
        HostType::Normal
    };
    let host = Host {
        id: host_id.clone(),
        type_code: host_type.code(),
        hostname: config.host.hostname.clone(),
        ip: config.host.ip.clone(),
        port: config.upload_port as i32,
        download_port: config.upload_port as i32,
        os: os.os,
        platform: os.platform,
        platform_family: os.platform_family,
        platform_version: os.platform_version,
        kernel_version: os.kernel_version,
        cpu,
        memory,
        network: NetworkStats {
            tcp_connection_count: 0,
            upload_tcp_connection_count: 0,
            idc: crate::messages::copy_opt_string(&config.host.idc),
            location: crate::messages::copy_opt_string(&config.host.location),
        },
        disk,
        build,
        scheduler_cluster_id: 0,
    };
    Ok(AnnounceHostRequest { host, interval_ms: config.announce_interval_ms })
}

/// Law: two host announcements built from the same configuration and
/// host id agree bit for bit on the identity fields — host id,
/// hostname, ip and ports — however the resource samples differ
/// between the two calls.
pub proof fn lemma_snapshot_identity_stable(
    r1: AnnounceHostRequest,
    r2: AnnounceHostRequest,
    c: Config,
    host_id: String,
)
    requires
        spec_identity_pinned(r1, c, host_id),
        spec_identity_pinned(r2, c, host_id),
    ensures
        r1.host.id == r2.host.id,
        r1.host.hostname == r2.host.hostname,
        r1.host.ip == r2.host.ip,
        r1.host.port == r2.host.port,
        r1.host.download_port == r2.host.download_port,
        r1.host.type_code == r2.host.type_code,
        r1.interval_ms == r2.interval_ms,
{
}

} // verus!

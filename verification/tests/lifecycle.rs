use announcer::config::{Config, HostConfig, HostType, SeedPeerConfig};
use announcer::error::AnnounceError;
use announcer::fanout::{AnnounceGate, FanOutWait, StreamOutcome};
use announcer::manager::{manager_lifecycle, ManagerAnnouncer, ManagerCall, ManagerPhase};
use announcer::messages::BuildInfo;
use announcer::scheduler::SchedulerAnnouncer;
use announcer::telemetry::{collect_cpu_stats, collect_disk_stats, make_announce_host_request};
use announcer::MAX_CONCURRENT_ANNOUNCES;

fn test_config(seed_enable: bool) -> Config {
    Config {
        host: HostConfig {
            hostname: "node-a".to_string(),
            ip: "10.0.0.1".to_string(),
            idc: Some("idc-1".to_string()),
            location: None,
        },
        seed_peer: SeedPeerConfig { enable: seed_enable, kind: HostType::SuperSeed, cluster_id: 7 },
        upload_port: 4000,
        announce_interval_ms: 30_000,
        task_ttl_ms: 3_600_000,
        storage_dir: ".".to_string(),
    }
}

fn build_info() -> BuildInfo {
    BuildInfo {
        git_version: "0.1.0".to_string(),
        git_commit: Some("deadbeef".to_string()),
        rust_version: Some("1.80".to_string()),
    }
}

#[test]
fn clean_seed_peer_lifecycle() {
    let mut announcer = ManagerAnnouncer::new(test_config(true));
    let update = announcer.start().expect("seed peer enabled: registration expected");
    assert_eq!(update.hostname, "node-a");
    assert_eq!(update.ip, "10.0.0.1");
    assert_eq!(update.seed_peer_cluster_id, 7);
    assert_eq!(update.port, 4000);
    assert_eq!(update.download_port, 4000);
    announcer.on_update_result(true);
    let delete = announcer.on_shutdown().expect("registered: deregistration expected");
    assert_eq!(delete.hostname, update.hostname);
    assert_eq!(delete.ip, update.ip);
    assert_eq!(delete.seed_peer_cluster_id, update.seed_peer_cluster_id);
    assert!(matches!(announcer.phase, ManagerPhase::Stopped));
}

#[test]
fn non_seed_lifecycle_issues_no_manager_rpc() {
    let mut announcer = ManagerAnnouncer::new(test_config(false));
    assert!(announcer.start().is_none());
    assert!(announcer.on_shutdown().is_none());
    assert!(matches!(announcer.phase, ManagerPhase::Stopped));
}

#[test]
fn seed_peer_run_pairs_update_with_delete() {
    let calls = manager_lifecycle(test_config(true), true);
    assert_eq!(calls.len(), 2);
    let ManagerCall::Update(update) = &calls[0] else {
        panic!("the first manager RPC is the registration");
    };
    let ManagerCall::Delete(delete) = &calls[1] else {
        panic!("the second manager RPC is the deregistration");
    };
    assert_eq!(update.hostname, "node-a");
    assert_eq!(update.ip, "10.0.0.1");
    assert_eq!(update.seed_peer_cluster_id, 7);
    assert_eq!(delete.hostname, "node-a");
    assert_eq!(delete.ip, "10.0.0.1");
    assert_eq!(delete.seed_peer_cluster_id, 7);
}

#[test]
fn non_seed_run_issues_zero_manager_rpcs() {
    let calls = manager_lifecycle(test_config(false), true);
    assert!(calls.is_empty());
}

#[test]
fn failed_registration_issues_no_delete() {
    let calls = manager_lifecycle(test_config(true), false);
    assert_eq!(calls.len(), 1);
    assert!(matches!(calls[0], ManagerCall::Update(_)));
}

#[test]
fn failed_registration_aborts_startup() {
    let mut announcer = ManagerAnnouncer::new(test_config(true));
    let _ = announcer.start().expect("registration expected");
    announcer.on_update_result(false);
    assert!(matches!(announcer.phase, ManagerPhase::Aborted));
}

#[test]
fn scheduler_announcer_stops_announcing_after_shutdown() {
    let config = test_config(false);
    let mut announcer = SchedulerAnnouncer::new(config, "host-1".to_string());
    assert!(announcer.on_tick());
    assert!(announcer.on_tick());
    let delete = announcer.on_shutdown();
    assert_eq!(delete.host_id, "host-1");
    assert!(!announcer.on_tick());
}

#[test]
fn gate_caps_concurrent_announcements_at_five() {
    let mut gate = AnnounceGate::new();
    for _ in 0..MAX_CONCURRENT_ANNOUNCES {
        assert!(gate.try_acquire());
    }
    assert!(!gate.try_acquire());
    assert_eq!(gate.in_flight, MAX_CONCURRENT_ANNOUNCES);
    gate.release();
    assert!(gate.try_acquire());
    assert!(!gate.try_acquire());
}

#[test]
fn nine_streams_run_under_the_cap() {
    // Nine pending announcements are never admitted more than five at
    // a time; each completion admits the next; all nine run.
    let mut gate = AnnounceGate::new();
    let mut started: usize = 0;
    let mut finished: usize = 0;
    let total: usize = 9;
    let mut peak: usize = 0;
    while finished < total {
        while started < total && gate.try_acquire() {
            started += 1;
            if gate.in_flight > peak {
                peak = gate.in_flight;
            }
        }
        gate.release();
        finished += 1;
    }
    assert_eq!(started, total);
    assert_eq!(finished, total);
    assert_eq!(peak, MAX_CONCURRENT_ANNOUNCES);
}

#[test]
fn timeout_escape_detaches_and_succeeds() {
    let mut wait = FanOutWait::new(4);
    assert!(wait.waiting());
    wait.on_stream_finished(StreamOutcome::Delivered);
    assert!(wait.waiting());
    wait.on_stream_finished(StreamOutcome::Failed);
    assert!(wait.waiting());
    wait.on_stream_finished(StreamOutcome::TimedOut);
    assert!(wait.detached);
    assert!(!wait.waiting());
    assert!(wait.verdict().is_ok());
}

#[test]
fn per_stream_failures_are_swallowed() {
    let mut wait = FanOutWait::new(2);
    wait.on_stream_finished(StreamOutcome::Failed);
    wait.on_stream_finished(StreamOutcome::Failed);
    assert!(!wait.detached);
    assert!(!wait.waiting());
    assert!(wait.verdict().is_ok());
}

#[test]
fn snapshot_identity_fields_are_stable() {
    let config = test_config(true);
    let host_id = "host-xyz".to_string();
    let first = make_announce_host_request(
        &config,
        &host_id,
        "linux".to_string(),
        "unix".to_string(),
        build_info(),
    )
    .expect("snapshot of an existing directory succeeds");
    let second = make_announce_host_request(
        &config,
        &host_id,
        "linux".to_string(),
        "unix".to_string(),
        build_info(),
    )
    .expect("snapshot of an existing directory succeeds");
    assert_eq!(first.host.id, second.host.id);
    assert_eq!(first.host.hostname, second.host.hostname);
    assert_eq!(first.host.ip, second.host.ip);
    assert_eq!(first.host.port, second.host.port);
    assert_eq!(first.host.download_port, second.host.download_port);
    assert_eq!(first.host.hostname, "node-a");
    assert_eq!(first.host.ip, "10.0.0.1");
    assert_eq!(first.host.port, 4000);
    assert_eq!(first.host.type_code, HostType::SuperSeed.code());
    assert_eq!(first.interval_ms, 30_000);
    // Resource fields stay within plausible bounds.
    let d = &first.host.disk;
    if d.free <= d.total {
        assert_eq!(d.used as u128 + d.free as u128, d.total as u128);
    }
    assert_eq!(d.inodes_total, 0);
    assert_eq!(d.inodes_used, 0);
}

#[test]
fn snapshot_of_missing_directory_fails_with_resource_error() {
    let mut config = test_config(false);
    config.storage_dir = "/this/directory/does/not/exist".to_string();
    let r = make_announce_host_request(
        &config,
        &"host-xyz".to_string(),
        "linux".to_string(),
        "unix".to_string(),
        build_info(),
    );
    assert!(matches!(r, Err(AnnounceError::Resource)));
    let d = collect_disk_stats("/this/directory/does/not/exist");
    assert!(matches!(d, Err(AnnounceError::Resource)));
}

#[test]
fn cpu_counts_repeat_physical_cores() {
    let cpu = collect_cpu_stats();
    assert_eq!(cpu.logical_count, cpu.physical_count);
}

#[test]
fn host_type_names_and_codes() {
    assert_eq!(HostType::Normal.code(), 0);
    assert_eq!(HostType::SuperSeed.code(), 1);
    assert_eq!(HostType::StrongSeed.code(), 2);
    assert_eq!(HostType::WeakSeed.code(), 3);
    assert_eq!(HostType::Normal.name(), "normal");
    assert_eq!(HostType::SuperSeed.name(), "super");
    assert_eq!(HostType::StrongSeed.name(), "strong");
    assert_eq!(HostType::WeakSeed.name(), "weak");
}

#[test]
fn error_policy_on_startup() {
    assert!(AnnounceError::HashRing("abcde".to_string()).aborts_startup());
    assert!(AnnounceError::Resource.aborts_startup());
    assert!(AnnounceError::Rpc("connection refused".to_string()).aborts_startup());
    assert!(!AnnounceError::SendTimeout.aborts_startup());
}

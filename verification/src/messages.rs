//! Models of the control-plane wire messages the core produces.
//!
//! These carry the same fields as the protocol messages, as plain
//! values; the surrounding daemon converts them one for one when it
//! puts them on the wire.  Percentage fields of the telemetry messages
//! are ratios computed at the edge and are not modelled here.

use vstd::prelude::*;
use crate::config::HostType;

verus! {

/// Origin of a manager-side record.  The announcement core only ever
/// registers seed-peer records.
#[derive(Debug, Clone, Copy, PartialEq, Eq, Structural)]
pub enum SourceType {
    SeedPeer,
}

/// Registration of this host as a seed peer with the manager.
#[derive(Debug, Clone)]
pub struct UpdateSeedPeerRequest {
    pub source_type: SourceType,
    pub hostname: String,
    pub kind: HostType,
    pub idc: Option<String>,
    pub location: Option<String>,
    pub ip: String,
    pub port: i32,
    pub download_port: i32,
    pub seed_peer_cluster_id: u64,
}

/// Removal of this host's seed-peer record from the manager.
#[derive(Debug, Clone)]
pub struct DeleteSeedPeerRequest {
    pub source_type: SourceType,
    pub hostname: String,
    pub ip: String,
    pub seed_peer_cluster_id: u64,
}

/// Processor telemetry.  Usage percentages are sampled at the edge.
#[derive(Debug, Clone, Copy, PartialEq, Eq, Structural)]
pub struct CpuStats {
    pub logical_count: u32,
    pub physical_count: u32,
}

/// Memory telemetry, in bytes.  Usage ratios are computed at the edge.
#[derive(Debug, Clone, Copy, PartialEq, Eq, Structural)]
pub struct MemoryStats {
    pub total: u64,
    pub available: u64,
    pub used: u64,
    pub free: u64,
}

/// Disk telemetry of the storage directory, in bytes.  Inode counts
/// are reported as zero, unimplemented.
#[derive(Debug, Clone, Copy, PartialEq, Eq, Structural)]
pub struct DiskStats {
    pub total: u64,
    pub free: u64,
    pub used: u64,
    pub inodes_total: u64,
    pub inodes_used: u64,
    pub inodes_free: u64,
}

/// Network telemetry.  Connection counts are reported as zero,
/// unimplemented.
#[derive(Debug, Clone)]
pub struct NetworkStats {
    pub tcp_connection_count: u32,
    pub upload_tcp_connection_count: u32,
    pub idc: Option<String>,
    pub location: Option<String>,
}

/// Build information of the running daemon.
#[derive(Debug, Clone)]
pub struct BuildInfo {
    pub git_version: String,
    pub git_commit: Option<String>,
    pub rust_version: Option<String>,
}

/// Host record published to the schedulers.
#[derive(Debug, Clone)]
pub struct Host {
    pub id: String,
    pub type_code: u32,
    pub hostname: String,
    pub ip: String,
    pub port: i32,
    pub download_port: i32,
    pub os: String,
    pub platform: String,
    pub platform_family: String,
    pub platform_version: String,
    pub kernel_version: String,
    pub cpu: CpuStats,
    pub memory: MemoryStats,
    pub network: NetworkStats,
    pub disk: DiskStats,
    pub build: BuildInfo,
    pub scheduler_cluster_id: u32,
}

/// Periodic (and initial) host announcement to a scheduler.
#[derive(Debug, Clone)]
pub struct AnnounceHostRequest {
    pub host: Host,
    pub interval_ms: u64,
}

/// Removal of this host's record from a scheduler.
#[derive(Debug, Clone)]
pub struct DeleteHostRequest {
    pub host_id: String,
}

/// Eviction of one task's record from the scheduler owning its shard.
#[derive(Debug, Clone)]
pub struct DeleteTaskRequest {
    pub host_id: String,
    pub task_id: String,
}

/// One piece of a task, as announced to a scheduler.
#[derive(Debug, Clone)]
pub struct Piece {
    pub number: u32,
    pub parent_id: Option<String>,
    pub offset: u64,
    pub length: u64,
    pub digest: String,
}

/// Header of a task inside a peer announcement.
#[derive(Debug, Clone)]
pub struct TaskHeader {
    pub id: String,
    pub piece_length: u64,
    pub content_length: u64,
}

/// One locally cached download, announced to the scheduler that owns
/// its shard.
#[derive(Debug, Clone)]
pub struct Peer {
    pub id: String,
    pub pieces: Vec<Piece>,
    pub task: TaskHeader,
    pub host_id: String,
}

/// One frame of the bulk peer announcement stream.
#[derive(Debug, Clone)]
pub struct AnnouncePeersRequest {
    pub peers: Vec<Peer>,
}

/// Mathematical content of a `Piece`.
#[verifier::ext_equal]
pub struct PieceView {
    pub number: u32,
    pub parent_id: Option<Seq<char>>,
    pub offset: u64,
    pub length: u64,
    pub digest: Seq<char>,
}

impl DeepView for Piece {
    type V = PieceView;

    open spec fn deep_view(&self) -> PieceView {
        PieceView {
            number: self.number,
            parent_id: self.parent_id.deep_view(),
            offset: self.offset,
            length: self.length,
            digest: self.digest@,
        }
    }
}

/// Mathematical content of a `TaskHeader`.
#[verifier::ext_equal]
pub struct TaskHeaderView {
    pub id: Seq<char>,
    pub piece_length: u64,
    pub content_length: u64,
}

impl DeepView for TaskHeader {
    type V = TaskHeaderView;

    open spec fn deep_view(&self) -> TaskHeaderView {
        TaskHeaderView { id: self.id@, piece_length: self.piece_length, content_length: self.content_length }
    }
}

/// Mathematical content of a `Peer`.
#[verifier::ext_equal]
pub struct PeerView {
    pub id: Seq<char>,
    pub pieces: Seq<PieceView>,
    pub task: TaskHeaderView,
    pub host_id: Seq<char>,
}

impl DeepView for Peer {
    type V = PeerView;

    open spec fn deep_view(&self) -> PeerView {
        PeerView {
            id: self.id@,
            pieces: self.pieces.deep_view(),
            task: self.task.deep_view(),
            host_id: self.host_id@,
        }
    }
}

/// Copies a string held under an option.
pub fn copy_opt_string(s: &Option<String>) -> (r: Option<String>)
    ensures
        r == *s,
{
    match s {
        Some(v) => Some(v.clone()),
        None => None,
    }
}

/// Copies a piece record field for field.
pub fn copy_piece(p: &Piece) -> (r: Piece)
    ensures
        r == *p,
{
    Piece {
        number: p.number,
        parent_id: copy_opt_string(&p.parent_id),
        offset: p.offset,
        length: p.length,
        digest: p.digest.clone(),
    }
}

/// Copies a sequence of piece records.
pub fn copy_pieces(v: &Vec<Piece>) -> (r: Vec<Piece>)
    ensures
        r@ == v@,
{
    let mut r: Vec<Piece> = Vec::new();
    let mut i: usize = 0;
    while i < v.len()
        invariant
            i <= v.len(),
            r@ == v@.subrange(0, i as int),
        decreases v.len() - i,
    {
        r.push(copy_piece(&v[i]));
        proof {
            assert(r@ =~= v@.subrange(0, i + 1 as int));
        }
        i = i + 1;
    }
    proof {
        assert(r@ =~= v@);
    }
    r
}

/// Copies a peer record field for field.
pub fn copy_peer(p: &Peer) -> (r: Peer)
    ensures
        r.deep_view() == p.deep_view(),
{
    Peer {
        id: p.id.clone(),
        pieces: copy_pieces(&p.pieces),
        task: TaskHeader {
            id: p.task.id.clone(),
            piece_length: p.task.piece_length,
            content_length: p.task.content_length,
        },
        host_id: p.host_id.clone(),
    }
}

} // verus!

//! Reconciliation of the local task inventory with the scheduler
//! fleet.
//!
//! One scan of the locally stored tasks decides, for every task,
//! exactly one disposition: stale tasks — unfinished, or finished
//! longer ago than the task time-to-live — are evicted from the
//! scheduler fleet with a deletion request, and every other task is
//! announced as a peer to the scheduler that owns its shard.  The
//! shard is found by looking the first five characters of the task id
//! up in a snapshot of the hash ring; a healthy task the ring does not
//! cover fails the whole reconciliation, and daemon startup aborts.
//! Announceable peers are bucketed per endpoint, one bulk announcement
//! per bucket, and each bucket is streamed in frames of at most
//! `MAX_PEERS_PER_FRAME` peers.

use vstd::prelude::*;
use vstd::string::StrSliceExecFns;
use crate::MAX_PEERS_PER_FRAME;
use crate::error::AnnounceError;
use crate::messages::{AnnouncePeersRequest, DeleteTaskRequest, Peer, PeerView, Piece, TaskHeader, TaskHeaderView};
use crate::ring::{RingSnapshot, spec_ring_endpoint};

verus! {

/// Number of leading characters of a task id that form its route key.
pub const ROUTE_KEY_CHARS: usize = 5;

/// One task as local storage reports it, together with its pieces.
pub struct LocalTask {
    /// Content-addressed task identifier.
    pub id: String,
    /// Length of one piece, in bytes.
    pub piece_length: u64,
    /// Total content length in bytes, when known.
    pub content_length: Option<u64>,
    /// When the download finished, in milliseconds, if it did.
    pub finished_at_ms: Option<u64>,
    /// The pieces held locally for it.
    pub pieces: Vec<Piece>,
}

/// A task stays announceable while it is finished and its age since
/// finishing is within the task time-to-live; everything else is
/// evicted.
pub open spec fn spec_announceable(t: LocalTask, now_ms: u64, ttl_ms: u64) -> bool {
    match t.finished_at_ms {
        Some(f) => now_ms <= f + ttl_ms,
        None => false,
    }
}

/// Decides whether a task is announced or evicted.
pub fn is_announceable(t: &LocalTask, now_ms: u64, ttl_ms: u64) -> (r: bool)
    ensures
        r == spec_announceable(*t, now_ms, ttl_ms),
{
    match t.finished_at_ms {
        Some(f) => {
            if now_ms < f {
                true
            } else {
                now_ms - f <= ttl_ms
            }
        },
        None => false,
    }
}

/// The endpoint the ring snapshot assigns to a task id: the entry of
/// the id's five-character route key, when the id is long enough to
/// have one and the ring covers it.
pub open spec fn spec_task_endpoint(ring: Seq<(String, String)>, id: Seq<char>) -> Option<
    Seq<char>,
> {
    if id.len() >= ROUTE_KEY_CHARS {
        spec_ring_endpoint(ring, id.subrange(0, ROUTE_KEY_CHARS as int))
    } else {
        None
    }
}

/// Routes a task id: the index of the ring entry that owns it, or
/// nothing when the id is shorter than a route key or the ring does
/// not cover the key.
pub fn route_task(ring: &RingSnapshot, id: &String) -> (r: Option<usize>)
    ensures
        match r {
            Some(i) => {
                &&& 0 <= i < ring.entries@.len()
                &&& spec_task_endpoint(ring.entries@, id@) == Some(ring.entries@[i as int].1@)
            },
            None => spec_task_endpoint(ring.entries@, id@) is None,
        },
{
    let n = id.as_str().unicode_len();
    if n < ROUTE_KEY_CHARS {
        return None;
    }
    let key: String = id.as_str().substring_char(0, ROUTE_KEY_CHARS).to_owned();
    ring.lookup(&key)
}

/// The peer record announced for a task: a fresh peer id, the pieces
/// and the task header from storage, and this host's identity.
pub open spec fn spec_peer_view(t: LocalTask, peer_id: Seq<char>, host_id: Seq<char>) -> PeerView {
    PeerView {
        id: peer_id,
        pieces: t.pieces.deep_view(),
        task: TaskHeaderView {
            id: t.id@,
            piece_length: t.piece_length,
            content_length: match t.content_length {
                Some(v) => v,
                None => 0,
            },
        },
        host_id,
    }
}

/// Builds the peer record announced for a task.
pub fn make_peer(t: &LocalTask, peer_id: &String, host_id: &String) -> (p: Peer)
    ensures
        p.deep_view() == spec_peer_view(*t, peer_id@, host_id@),
{
    let p = Peer {
        id: peer_id.clone(),
        pieces: crate::messages::copy_pieces(&t.pieces),
        task: TaskHeader {
            id: t.id.clone(),
            piece_length: t.piece_length,
            content_length: match t.content_length {
                Some(v) => v,
                None => 0,
            },
        },
        host_id: host_id.clone(),
    };
    proof {
        assert(p.deep_view() =~= spec_peer_view(*t, peer_id@, host_id@));
    }
    p
}

/// One announceable peer together with the endpoint that owns its
/// shard.
pub struct RoutedPeer {
    pub endpoint: String,
    pub peer: Peer,
}

/// Mathematical content of a routed peer: the endpoint and the peer
/// record.
pub open spec fn spec_routed_pair(rp: RoutedPeer) -> (Seq<char>, PeerView) {
    (rp.endpoint@, rp.peer.deep_view())
}

/// The eviction requests of the first `n` tasks, in scan order.
pub open spec fn spec_deletions_prefix(
    host_id: String,
    tasks: Seq<LocalTask>,
    now_ms: u64,
    ttl_ms: u64,
    n: int,
) -> Seq<DeleteTaskRequest>
    decreases n,
{
    if n <= 0 {
        Seq::empty()
    } else {
        let pre = spec_deletions_prefix(host_id, tasks, now_ms, ttl_ms, n - 1);
        if !spec_announceable(tasks[n - 1], now_ms, ttl_ms) {
            pre.push(DeleteTaskRequest { host_id: host_id, task_id: tasks[n - 1].id })
        } else {
            pre
        }
    }
}

/// The eviction requests of a whole scan, in scan order.
pub open spec fn spec_deletions(
    host_id: String,
    tasks: Seq<LocalTask>,
    now_ms: u64,
    ttl_ms: u64,
) -> Seq<DeleteTaskRequest> {
    spec_deletions_prefix(host_id, tasks, now_ms, ttl_ms, tasks.len() as int)
}

/// The routed peers of the first `n` tasks, in scan order: one per
/// announceable task the ring covers.
pub open spec fn spec_routed_prefix(
    ring: Seq<(String, String)>,
    tasks: Seq<LocalTask>,
    peer_ids: Seq<String>,
    host_id: Seq<char>,
    now_ms: u64,
    ttl_ms: u64,
    n: int,
) -> Seq<(Seq<char>, PeerView)>
    decreases n,
{
    if n <= 0 {
        Seq::empty()
    } else {
        let pre = spec_routed_prefix(ring, tasks, peer_ids, host_id, now_ms, ttl_ms, n - 1);
        if spec_announceable(tasks[n - 1], now_ms, ttl_ms) {
            match spec_task_endpoint(ring, tasks[n - 1].id@) {
                Some(addr) => pre.push(
                    (addr, spec_peer_view(tasks[n - 1], peer_ids[n - 1]@, host_id)),
                ),
                None => pre,
            }
        } else {
            pre
        }
    }
}

/// The routed peers of a whole scan, in scan order.
pub open spec fn spec_routed(
    ring: Seq<(String, String)>,
    tasks: Seq<LocalTask>,
    peer_ids: Seq<String>,
    host_id: Seq<char>,
    now_ms: u64,
    ttl_ms: u64,
) -> Seq<(Seq<char>, PeerView)> {
    spec_routed_prefix(ring, tasks, peer_ids, host_id, now_ms, ttl_ms, tasks.len() as int)
}

/// Task `i` is the first whose shard the ring does not cover, among
/// the announceable ones; it makes the whole reconciliation fail.
pub open spec fn spec_blocks_reconciliation(
    ring: Seq<(String, String)>,
    tasks: Seq<LocalTask>,
    now_ms: u64,
    ttl_ms: u64,
    i: int,
) -> bool {
    &&& 0 <= i < tasks.len()
    &&& spec_announceable(tasks[i], now_ms, ttl_ms)
    &&& spec_task_endpoint(ring, tasks[i].id@) is None
    &&& forall|j: int|
        0 <= j < i ==> (spec_announceable(tasks[j], now_ms, ttl_ms) ==> spec_task_endpoint(
            ring,
            tasks[j].id@,
        ) is Some)
}

/// Scans the task inventory: evictions for the stale tasks, a routed
/// peer for every announceable one, in scan order.  Fails, with the id
/// of the first announceable task the ring does not cover, if and only
/// if there is such a task.
pub fn scan_tasks(
    host_id: &String,
    tasks: &Vec<LocalTask>,
    peer_ids: &Vec<String>,
    ring: &RingSnapshot,
    now_ms: u64,
    ttl_ms: u64,
) -> (r: Result<(Vec<DeleteTaskRequest>, Vec<RoutedPeer>), AnnounceError>)
    requires
        peer_ids@.len() == tasks@.len(),
    ensures
        match r {
            Ok(pair) => {
                &&& pair.0@ == spec_deletions(*host_id, tasks@, now_ms, ttl_ms)
                &&& pair.1@.map_values(|rp: RoutedPeer| spec_routed_pair(rp)) == spec_routed(
                    ring.entries@,
                    tasks@,
                    peer_ids@,
                    host_id@,
                    now_ms,
                    ttl_ms,
                )
                &&& forall|i: int|
                    0 <= i < tasks@.len() && spec_announceable(tasks@[i], now_ms, ttl_ms)
                        ==> spec_task_endpoint(ring.entries@, tasks@[i].id@) is Some
            },
            Err(e) => exists|i: int|
                spec_blocks_reconciliation(ring.entries@, tasks@, now_ms, ttl_ms, i) && e
                    == AnnounceError::HashRing(tasks@[i].id),
        },
{
    let ghost f = |rp: RoutedPeer| spec_routed_pair(rp);
    let mut dels: Vec<DeleteTaskRequest> = Vec::new();
    let mut routed: Vec<RoutedPeer> = Vec::new();
    let n = tasks.len();
    let mut i: usize = 0;
    while i < n
        invariant
            n == tasks@.len(),
            peer_ids@.len() == tasks@.len(),
            i <= n,
            dels@ == spec_deletions_prefix(*host_id, tasks@, now_ms, ttl_ms, i as int),
            routed@.map_values(|rp: RoutedPeer| spec_routed_pair(rp)) == spec_routed_prefix(
                ring.entries@,
                tasks@,
                peer_ids@,
                host_id@,
                now_ms,
                ttl_ms,
                i as int,
            ),
            forall|j: int|
                0 <= j < i && spec_announceable(tasks@[j], now_ms, ttl_ms) ==> spec_task_endpoint(
                    ring.entries@,
                    tasks@[j].id@,
                ) is Some,
        decreases n - i,
    {
        let t = &tasks[i];
        if !is_announceable(t, now_ms, ttl_ms) {
            let ghost dels_before = dels@;
            dels.push(DeleteTaskRequest { host_id: host_id.clone(), task_id: t.id.clone() });
            proof {
                assert(dels@ =~= dels_before.push(
                    DeleteTaskRequest { host_id: *host_id, task_id: tasks@[i as int].id },
                ));
            }
        } else {
            match route_task(ring, &t.id) {
                Some(entry) => {
                    let endpoint: String = ring.entries[entry].1.clone();
                    let peer = make_peer(t, &peer_ids[i], host_id);
                    let ghost routed_before = routed@;
                    routed.push(RoutedPeer { endpoint, peer });
                    proof {
                        assert(routed@.map_values(|rp: RoutedPeer| spec_routed_pair(rp)) =~= routed_before.map_values(
                            |rp: RoutedPeer| spec_routed_pair(rp),
                        ).push(
                            (
                                ring.entries@[entry as int].1@,
                                spec_peer_view(tasks@[i as int], peer_ids@[i as int]@, host_id@),
                            ),
                        ));
                    }
                },
                None => {
                    let e = AnnounceError::HashRing(t.id.clone());
                    proof {
                        assert(spec_blocks_reconciliation(
                            ring.entries@,
                            tasks@,
                            now_ms,
                            ttl_ms,
                            i as int,
                        ));
                    }
                    return Err(e);
                },
            }
        }
        i = i + 1;
    }
    Ok((dels, routed))
}

/// The distinct endpoints of the routed peers, in first-appearance
/// order: one bulk announcement goes to each.
pub open spec fn spec_distinct_keys(rs: Seq<(Seq<char>, PeerView)>) -> Seq<Seq<char>>
    decreases rs.len(),
{
    if rs.len() == 0 {
        Seq::empty()
    } else {
        let pre = spec_distinct_keys(rs.drop_last());
        if pre.contains(rs.last().0) {
            pre
        } else {
            pre.push(rs.last().0)
        }
    }
}

/// The peers routed to one endpoint, in scan order: the bucket of one
/// bulk announcement.
pub open spec fn spec_bucket(rs: Seq<(Seq<char>, PeerView)>, key: Seq<char>) -> Seq<PeerView>
    decreases rs.len(),
{
    if rs.len() == 0 {
        Seq::empty()
    } else {
        let pre = spec_bucket(rs.drop_last(), key);
        if rs.last().0 == key {
            pre.push(rs.last().1)
        } else {
            pre
        }
    }
}

/// Whether one of the strings reads `key`.
fn contains_key(keys: &Vec<String>, key: &String) -> (r: bool)
    ensures
        r == exists|j: int| 0 <= j < keys@.len() && keys@[j]@ == key@,
{
    let n = keys.len();
    let mut i: usize = 0;
    while i < n
        invariant
            n == keys@.len(),
            i <= n,
            forall|j: int| 0 <= j < i ==> keys@[j]@ != key@,
        decreases n - i,
    {
        if keys[i] == *key {
            return true;
        }
        i = i + 1;
    }
    false
}

/// Collects the distinct endpoints of the routed peers, in
/// first-appearance order.
fn collect_keys(routed: &Vec<RoutedPeer>) -> (keys: Vec<String>)
    ensures
        keys@.map_values(|s: String| s@) == spec_distinct_keys(
            routed@.map_values(|rp: RoutedPeer| spec_routed_pair(rp)),
        ),
{
    let ghost rs = routed@.map_values(|rp: RoutedPeer| spec_routed_pair(rp));
    let mut keys: Vec<String> = Vec::new();
    let n = routed.len();
    let mut i: usize = 0;
    while i < n
        invariant
            n == routed@.len(),
            rs == routed@.map_values(|rp: RoutedPeer| spec_routed_pair(rp)),
            i <= n,
            keys@.map_values(|s: String| s@) == spec_distinct_keys(rs.subrange(0, i as int)),
        decreases n - i,
    {
        proof {
            assert(rs.subrange(0, (i + 1) as int).drop_last() =~= rs.subrange(0, i as int));
            assert(rs.subrange(0, (i + 1) as int).last() == rs[i as int]);
        }
        let ghost pre = spec_distinct_keys(rs.subrange(0, i as int));
        let found = contains_key(&keys, &routed[i].endpoint);
        proof {
            if found {
                let j = choose|j: int|
                    0 <= j < keys@.len() && keys@[j]@ == routed@[i as int].endpoint@;
                assert(pre[j] == rs[i as int].0);
                assert(pre.contains(rs[i as int].0));
            } else {
                assert(forall|j: int| 0 <= j < pre.len() ==> pre[j] != rs[i as int].0) by {
                    assert(forall|j: int|
                        0 <= j < keys@.len() ==> keys@[j]@ != routed@[i as int].endpoint@);
                }
                assert(!pre.contains(rs[i as int].0));
            }
        }
        if !found {
            let ghost keys_before = keys@;
            keys.push(routed[i].endpoint.clone());
            proof {
                assert(keys@.map_values(|s: String| s@) =~= keys_before.map_values(
                    |s: String| s@,
                ).push(rs[i as int].0));
            }
        }
        i = i + 1;
    }
    proof {
        assert(rs.subrange(0, n as int) =~= rs);
    }
    keys
}

/// Collects the peers routed to one endpoint, in scan order.
fn collect_bucket(routed: &Vec<RoutedPeer>, key: &String) -> (bucket: Vec<Peer>)
    ensures
        bucket.deep_view() == spec_bucket(
            routed@.map_values(|rp: RoutedPeer| spec_routed_pair(rp)),
            key@,
        ),
{
    let ghost rs = routed@.map_values(|rp: RoutedPeer| spec_routed_pair(rp));
    let mut bucket: Vec<Peer> = Vec::new();
    let n = routed.len();
    let mut i: usize = 0;
    while i < n
        invariant
            n == routed@.len(),
            rs == routed@.map_values(|rp: RoutedPeer| spec_routed_pair(rp)),
            i <= n,
            bucket.deep_view() == spec_bucket(rs.subrange(0, i as int), key@),
        decreases n - i,
    {
        proof {
            assert(rs.subrange(0, (i + 1) as int).drop_last() =~= rs.subrange(0, i as int));
            assert(rs.subrange(0, (i + 1) as int).last() == rs[i as int]);
        }
        if routed[i].endpoint == *key {
            let ghost bucket_before = bucket.deep_view();
            bucket.push(crate::messages::copy_peer(&routed[i].peer));
            proof {
                assert(bucket.deep_view() =~= bucket_before.push(rs[i as int].1));
            }
        }
        i = i + 1;
    }
    proof {
        assert(rs.subrange(0, n as int) =~= rs);
    }
    bucket
}

/// Buckets the routed peers per endpoint: one bulk announcement per
/// distinct endpoint, in first-appearance order, each carrying exactly
/// the peers routed to it, in scan order.
pub fn group_by_endpoint(routed: &Vec<RoutedPeer>) -> (r: Vec<AnnouncePeersRequest>)
    ensures
        ({
            let rs = routed@.map_values(|rp: RoutedPeer| spec_routed_pair(rp));
            &&& r@.len() == spec_distinct_keys(rs).len()
            &&& forall|j: int|
                0 <= j < r@.len() ==> r@[j].peers.deep_view() == spec_bucket(
                    rs,
                    spec_distinct_keys(rs)[j],
                )
        }),
{
    let ghost rs = routed@.map_values(|rp: RoutedPeer| spec_routed_pair(rp));
    let keys = collect_keys(routed);
    let mut r: Vec<AnnouncePeersRequest> = Vec::new();
    let n = keys.len();
    let mut k: usize = 0;
    while k < n
        invariant
            n == keys@.len(),
            rs == routed@.map_values(|rp: RoutedPeer| spec_routed_pair(rp)),
            keys@.map_values(|s: String| s@) == spec_distinct_keys(rs),
            k <= n,
            r@.len() == k,
            forall|j: int|
                0 <= j < k ==> r@[j].peers.deep_view() == spec_bucket(
                    rs,
                    spec_distinct_keys(rs)[j],
                ),
        decreases n - k,
    {
        let bucket = collect_bucket(routed, &keys[k]);
        proof {
            assert(keys@[k as int]@ == spec_distinct_keys(rs)[k as int]);
        }
        r.push(AnnouncePeersRequest { peers: bucket });
        k = k + 1;
    }
    r
}

/// What one reconciliation hands the daemon: the evictions to issue,
/// then the bulk announcements to stream, one per scheduler endpoint.
pub struct ReconcilePlan {
    /// Eviction requests for the stale tasks, in scan order.
    pub deletions: Vec<DeleteTaskRequest>,
    /// One bulk announcement per endpoint, in first-appearance order.
    pub announcements: Vec<AnnouncePeersRequest>,
}

/// Reconciles the local task inventory against a ring snapshot: every
/// stale task gets an eviction request, every other task appears as
/// exactly one peer in the bucket of the endpoint owning its shard.
/// Fails, with the id of the first announceable task the ring does not
/// cover, if and only if there is such a task.
pub fn make_announce_peers_request(
    host_id: &String,
    tasks: &Vec<LocalTask>,
    peer_ids: &Vec<String>,
    ring: &RingSnapshot,
    now_ms: u64,
    ttl_ms: u64,
) -> (r: Result<ReconcilePlan, AnnounceError>)
    requires
        peer_ids@.len() == tasks@.len(),
    ensures
        match r {
            Ok(plan) => {
                let rs = spec_routed(ring.entries@, tasks@, peer_ids@, host_id@, now_ms, ttl_ms);
                &&& plan.deletions@ == spec_deletions(*host_id, tasks@, now_ms, ttl_ms)
                &&& plan.announcements@.len() == spec_distinct_keys(rs).len()
                &&& forall|j: int|
                    0 <= j < plan.announcements@.len() ==> plan.announcements@[
                        j
                    ].peers.deep_view() == spec_bucket(rs, spec_distinct_keys(rs)[j])
                &&& forall|j: int|
                    #![trigger plan.announcements@[j]]
                    0 <= j < plan.announcements@.len() ==> plan.announcements@[j].peers@.len() > 0
                        && plan.announcements@[j].peers@[0].task.id@.len() >= ROUTE_KEY_CHARS
                &&& forall|i: int|
                    0 <= i < tasks@.len() && spec_announceable(tasks@[i], now_ms, ttl_ms)
                        ==> spec_task_endpoint(ring.entries@, tasks@[i].id@) is Some
            },
            Err(e) => exists|i: int|
                spec_blocks_reconciliation(ring.entries@, tasks@, now_ms, ttl_ms, i) && e
                    == AnnounceError::HashRing(tasks@[i].id),
        },
{
    match scan_tasks(host_id, tasks, peer_ids, ring, now_ms, ttl_ms) {
        Ok((deletions, routed)) => {
            let announcements = group_by_endpoint(&routed);
            proof {
                let rs = spec_routed(ring.entries@, tasks@, peer_ids@, host_id@, now_ms, ttl_ms);
                let rsp = spec_routed_prefix(
                    ring.entries@,
                    tasks@,
                    peer_ids@,
                    host_id@,
                    now_ms,
                    ttl_ms,
                    tasks@.len() as int,
                );
                crate::laws::lemma_routed_ids_are_routable(
                    ring.entries@,
                    tasks@,
                    peer_ids@,
                    host_id@,
                    now_ms,
                    ttl_ms,
                    tasks@.len() as int,
                );
                assert forall|j: int|
                    #![trigger announcements@[j]]
                    0 <= j < announcements@.len() implies announcements@[j].peers@.len() > 0
                    && announcements@[j].peers@[0].task.id@.len() >= ROUTE_KEY_CHARS by {
                    let key = spec_distinct_keys(rs)[j];
                    crate::laws::lemma_distinct_keys_sound(rs, j);
                    let i = choose|i: int| 0 <= i < rs.len() && rs[i].0 == key;
                    crate::laws::lemma_bucket_of_present_key(rs, i);
                    assert(announcements@[j].peers.deep_view() == spec_bucket(rs, key));
                    assert(announcements@[j].peers@.len() > 0);
                    crate::laws::lemma_bucket_members(rs, key, 0);
                    let w = choose|w: int|
                        0 <= w < rs.len() && rs[w].0 == key && rs[w].1 == spec_bucket(rs, key)[0];
                    assert(rsp[w].1.task.id.len() >= ROUTE_KEY_CHARS);
                    assert(announcements@[j].peers.deep_view()[0] == announcements@[
                        j
                    ].peers@[0].deep_view());
                }
            }
            Ok(ReconcilePlan { deletions, announcements })
        },
        Err(e) => Err(e),
    }
}

/// The frames one bulk announcement is streamed in: successive runs of
/// `MAX_PEERS_PER_FRAME` peers, the last frame holding the remainder.
pub open spec fn spec_frames(s: Seq<PeerView>) -> Seq<Seq<PeerView>>
    decreases s.len(),
{
    if s.len() == 0 {
        Seq::empty()
    } else if s.len() <= MAX_PEERS_PER_FRAME {
        seq![s]
    } else {
        seq![s.subrange(0, MAX_PEERS_PER_FRAME as int)] + spec_frames(
            s.subrange(MAX_PEERS_PER_FRAME as int, s.len() as int),
        )
    }
}

/// Splits one bulk announcement into the frames sent on its stream, in
/// order.
pub fn split_frames(req: &AnnouncePeersRequest) -> (frames: Vec<AnnouncePeersRequest>)
    ensures
        frames@.map_values(|fr: AnnouncePeersRequest| fr.peers.deep_view()) == spec_frames(
            req.peers.deep_view(),
        ),
{
    let ghost pv = req.peers.deep_view();
    let mut frames: Vec<AnnouncePeersRequest> = Vec::new();
    let n = req.peers.len();
    let mut start: usize = 0;
    proof {
        assert(pv.subrange(0, n as int) =~= pv);
        assert(frames@.map_values(|fr: AnnouncePeersRequest| fr.peers.deep_view()) =~= Seq::<
            Seq<PeerView>,
        >::empty());
        assert(Seq::<Seq<PeerView>>::empty() + spec_frames(pv) =~= spec_frames(pv));
    }
    while start < n
        invariant
            n == req.peers@.len(),
            pv == req.peers.deep_view(),
            start <= n,
            spec_frames(pv) == frames@.map_values(|fr: AnnouncePeersRequest| fr.peers.deep_view())
                + spec_frames(pv.subrange(start as int, n as int)),
        decreases n - start,
    {
        let c: usize = if n - start > MAX_PEERS_PER_FRAME {
            MAX_PEERS_PER_FRAME
        } else {
            n - start
        };
        let mut chunk: Vec<Peer> = Vec::new();
        let mut j: usize = 0;
        while j < c
            invariant
                n == req.peers@.len(),
                pv == req.peers.deep_view(),
                start + c <= n,
                j <= c,
                chunk.deep_view() == pv.subrange(start as int, start + j as int),
            decreases c - j,
        {
            let ghost chunk_before = chunk.deep_view();
            chunk.push(crate::messages::copy_peer(&req.peers[start + j]));
            proof {
                let target = pv.subrange(start as int, start + (j + 1) as int);
                assert(chunk_before.len() == j);
                assert(chunk@.len() == j + 1);
                assert(chunk.deep_view().len() == j + 1);
                assert forall|q: int| 0 <= q < j + 1 implies chunk.deep_view()[q] == target[q] by {
                    if q < j {
                        assert(chunk.deep_view()[q] == chunk_before[q]);
                        assert(chunk_before[q] == pv[start + q]);
                    } else {
                        assert(chunk@[q] == chunk@.last());
                        assert(chunk.deep_view()[q] == req.peers@[start + j].deep_view());
                        assert(pv[start + q] == req.peers@[start + j].deep_view());
                    }
                }
                assert(chunk.deep_view() =~= target);
            }
            j = j + 1;
        }
        let ghost frames_before = frames@.map_values(
            |fr: AnnouncePeersRequest| fr.peers.deep_view(),
        );
        let ghost suffix = pv.subrange(start as int, n as int);
        frames.push(AnnouncePeersRequest { peers: chunk });
        proof {
            assert(frames@.map_values(|fr: AnnouncePeersRequest| fr.peers.deep_view())
                =~= frames_before.push(pv.subrange(start as int, (start + c) as int)));
            if n - start > MAX_PEERS_PER_FRAME {
                assert(suffix.subrange(0, MAX_PEERS_PER_FRAME as int) =~= pv.subrange(
                    start as int,
                    (start + c) as int,
                ));
                assert(suffix.subrange(MAX_PEERS_PER_FRAME as int, suffix.len() as int)
                    =~= pv.subrange((start + c) as int, n as int));
                assert(spec_frames(suffix) == seq![pv.subrange(start as int, (start + c) as int)]
                    + spec_frames(pv.subrange((start + c) as int, n as int)));
            } else {
                assert(suffix =~= pv.subrange(start as int, (start + c) as int));
                assert(spec_frames(suffix) == seq![pv.subrange(start as int, (start + c) as int)]);
                assert(pv.subrange((start + c) as int, n as int) =~= Seq::<PeerView>::empty());
            }
            assert(frames_before.push(pv.subrange(start as int, (start + c) as int)) + spec_frames(
                pv.subrange((start + c) as int, n as int),
            ) =~= frames_before + spec_frames(suffix));
        }
        start = start + c;
    }
    proof {
        assert(pv.subrange(start as int, n as int) =~= Seq::<PeerView>::empty());
        assert(frames@.map_values(|fr: AnnouncePeersRequest| fr.peers.deep_view()) + Seq::<
            Seq<PeerView>,
        >::empty() =~= frames@.map_values(|fr: AnnouncePeersRequest| fr.peers.deep_view()));
    }
    frames
}

} // verus!

use announcer::error::AnnounceError;
use announcer::messages::Piece;
use announcer::reconciler::{
    is_announceable, make_announce_peers_request, route_task, split_frames, LocalTask,
};
use announcer::ring::RingSnapshot;
use announcer::MAX_PEERS_PER_FRAME;

const TTL_MS: u64 = 1_000_000;
const NOW_MS: u64 = 10_000_000;

fn task(id: &str, finished_at_ms: Option<u64>, pieces: Vec<Piece>) -> LocalTask {
    LocalTask {
        id: id.to_string(),
        piece_length: 4096,
        content_length: Some(8192),
        finished_at_ms,
        pieces,
    }
}

fn piece(number: u32) -> Piece {
    Piece {
        number,
        parent_id: Some("peer-parent".to_string()),
        offset: number as u64 * 4096,
        length: 4096,
        digest: format!("sha256:{}", number),
    }
}

fn ring(entries: &[(&str, &str)]) -> RingSnapshot {
    RingSnapshot {
        entries: entries.iter().map(|(k, v)| (k.to_string(), v.to_string())).collect(),
    }
}

fn peer_ids(n: usize) -> Vec<String> {
    (0..n).map(|i| format!("peer-{}", i)).collect()
}

#[test]
fn mixed_tasks_are_partitioned() {
    // T1 finished fresh, T2 finished beyond the ttl, T3 unfinished,
    // T4 finished fresh; T1 routes to s-a, T4 to s-b.
    let tasks = vec![
        task("t1aaa-fresh", Some(NOW_MS - 1), vec![piece(0)]),
        task("t2bbb-old", Some(NOW_MS - TTL_MS - 1), vec![]),
        task("t3ccc-unfinished", None, vec![]),
        task("t4ddd-fresh", Some(NOW_MS - 500), vec![piece(0), piece(1)]),
    ];
    let ring = ring(&[
        ("t1aaa", "s-a:8002"),
        ("t2bbb", "s-a:8002"),
        ("t3ccc", "s-b:8002"),
        ("t4ddd", "s-b:8002"),
    ]);
    let host_id = "host-1".to_string();
    let ids = peer_ids(tasks.len());
    let plan = make_announce_peers_request(&host_id, &tasks, &ids, &ring, NOW_MS, TTL_MS)
        .expect("every healthy task is covered by the ring");

    assert_eq!(plan.deletions.len(), 2);
    assert_eq!(plan.deletions[0].task_id, "t2bbb-old");
    assert_eq!(plan.deletions[1].task_id, "t3ccc-unfinished");
    assert!(plan.deletions.iter().all(|d| d.host_id == "host-1"));

    assert_eq!(plan.announcements.len(), 2);
    let a = &plan.announcements[0];
    let b = &plan.announcements[1];
    assert_eq!(a.peers.len(), 1);
    assert_eq!(b.peers.len(), 1);
    assert_eq!(a.peers[0].task.id, "t1aaa-fresh");
    assert_eq!(b.peers[0].task.id, "t4ddd-fresh");
    assert_eq!(a.peers[0].id, "peer-0");
    assert_eq!(b.peers[0].id, "peer-3");
    assert_eq!(b.peers[0].pieces.len(), 2);
    assert_eq!(b.peers[0].pieces[1].digest, "sha256:1");
    assert_eq!(a.peers[0].host_id, "host-1");
    assert_eq!(a.peers[0].task.content_length, 8192);

    // Every task was disposed of exactly once.
    let announced: usize = plan.announcements.iter().map(|r| r.peers.len()).sum();
    assert_eq!(announced + plan.deletions.len(), tasks.len());

    // Each bucket goes out as a single frame here.
    let frames = split_frames(a);
    assert_eq!(frames.len(), 1);
    assert_eq!(frames[0].peers.len(), 1);
}

#[test]
fn twenty_five_peers_chunk_into_frames_of_ten() {
    let mut tasks = Vec::new();
    let mut entries: Vec<(String, String)> = Vec::new();
    for i in 0..25 {
        let id = format!("pr{:03}-task", i);
        entries.push((id[0..5].to_string(), "s-a:8002".to_string()));
        tasks.push(task(&id, Some(NOW_MS - 1), vec![]));
    }
    let ring = RingSnapshot { entries };
    let host_id = "host-1".to_string();
    let ids = peer_ids(tasks.len());
    let plan = make_announce_peers_request(&host_id, &tasks, &ids, &ring, NOW_MS, TTL_MS)
        .expect("all tasks covered");
    assert!(plan.deletions.is_empty());
    assert_eq!(plan.announcements.len(), 1, "one endpoint, one stream");
    let bucket = &plan.announcements[0];
    assert_eq!(bucket.peers.len(), 25);

    let frames = split_frames(bucket);
    assert_eq!(frames.len(), 3);
    assert_eq!(frames[0].peers.len(), 10);
    assert_eq!(frames[1].peers.len(), 10);
    assert_eq!(frames[2].peers.len(), 5);
    // Frames keep the scan order.
    assert_eq!(frames[0].peers[0].task.id, "pr000-task");
    assert_eq!(frames[1].peers[0].task.id, "pr010-task");
    assert_eq!(frames[2].peers[4].task.id, "pr024-task");
    for f in &frames {
        assert!(f.peers.len() <= MAX_PEERS_PER_FRAME);
        assert!(!f.peers.is_empty());
    }
}

#[test]
fn nine_endpoints_give_nine_streams() {
    let mut tasks = Vec::new();
    let mut entries: Vec<(String, String)> = Vec::new();
    for i in 0..9 {
        let id = format!("ep{:03}-task", i);
        entries.push((id[0..5].to_string(), format!("s-{}:8002", i)));
        tasks.push(task(&id, Some(NOW_MS - 1), vec![]));
    }
    let ring = RingSnapshot { entries };
    let host_id = "host-1".to_string();
    let ids = peer_ids(tasks.len());
    let plan = make_announce_peers_request(&host_id, &tasks, &ids, &ring, NOW_MS, TTL_MS)
        .expect("all tasks covered");
    assert_eq!(plan.announcements.len(), 9);
    for r in &plan.announcements {
        assert_eq!(r.peers.len(), 1);
    }
}

#[test]
fn short_task_id_fails_reconciliation() {
    let tasks = vec![task("abc", Some(NOW_MS - 1), vec![])];
    let ring = ring(&[("abcde", "s-a:8002")]);
    let host_id = "host-1".to_string();
    let ids = peer_ids(tasks.len());
    let r = make_announce_peers_request(&host_id, &tasks, &ids, &ring, NOW_MS, TTL_MS);
    match r {
        Err(AnnounceError::HashRing(id)) => assert_eq!(id, "abc"),
        _ => panic!("a task id shorter than a route key must fail reconciliation"),
    }
}

#[test]
fn empty_storage_reconciles_to_nothing() {
    let tasks: Vec<LocalTask> = Vec::new();
    let ids: Vec<String> = Vec::new();
    let ring = ring(&[("abcde", "s-a:8002")]);
    let host_id = "host-1".to_string();
    let plan = make_announce_peers_request(&host_id, &tasks, &ids, &ring, NOW_MS, TTL_MS)
        .expect("empty storage reconciles successfully");
    assert!(plan.deletions.is_empty());
    assert!(plan.announcements.is_empty());
}

#[test]
fn uncovered_healthy_task_aborts_startup() {
    let tasks = vec![
        task("known-task", Some(NOW_MS - 1), vec![]),
        task("mystery-task", Some(NOW_MS - 1), vec![]),
    ];
    let ring = ring(&[("known", "s-a:8002")]);
    let host_id = "host-1".to_string();
    let ids = peer_ids(tasks.len());
    let r = make_announce_peers_request(&host_id, &tasks, &ids, &ring, NOW_MS, TTL_MS);
    match r {
        Err(AnnounceError::HashRing(id)) => assert_eq!(id, "mystery-task"),
        _ => panic!("a healthy task the ring does not cover must abort reconciliation"),
    }
}

#[test]
fn stale_task_with_uncovered_key_is_still_evicted() {
    // An expired task never consults the ring; only healthy ones do.
    let tasks = vec![task("gone1-task", Some(NOW_MS - TTL_MS - 1), vec![])];
    let ring = ring(&[]);
    let host_id = "host-1".to_string();
    let ids = peer_ids(tasks.len());
    let plan = make_announce_peers_request(&host_id, &tasks, &ids, &ring, NOW_MS, TTL_MS)
        .expect("stale tasks do not consult the ring");
    assert_eq!(plan.deletions.len(), 1);
    assert_eq!(plan.deletions[0].task_id, "gone1-task");
    assert!(plan.announcements.is_empty());
}

#[test]
fn announceability_boundaries() {
    // Exactly at the ttl boundary the task is still announceable.
    let at_boundary = task("bound-task", Some(NOW_MS - TTL_MS), vec![]);
    assert!(is_announceable(&at_boundary, NOW_MS, TTL_MS));
    let beyond = task("bound-task", Some(NOW_MS - TTL_MS - 1), vec![]);
    assert!(!is_announceable(&beyond, NOW_MS, TTL_MS));
    let unfinished = task("bound-task", None, vec![]);
    assert!(!is_announceable(&unfinished, NOW_MS, TTL_MS));
    // A finish stamp in the future (clock skew) is not expired.
    let future = task("bound-task", Some(NOW_MS + 5), vec![]);
    assert!(is_announceable(&future, NOW_MS, TTL_MS));
}

#[test]
fn ring_lookup_takes_the_first_matching_entry() {
    let ring = ring(&[("abcde", "s-first:8002"), ("abcde", "s-second:8002")]);
    let id = "abcdefgh".to_string();
    let entry = route_task(&ring, &id).expect("key covered");
    assert_eq!(entry, 0);
    assert_eq!(ring.entries[entry].1, "s-first:8002");
}

#[test]
fn route_key_is_the_five_character_prefix() {
    let ring = ring(&[("vwxyz", "s-a:8002")]);
    assert!(route_task(&ring, &"vwxyz-rest".to_string()).is_some());
    assert!(route_task(&ring, &"vwxy".to_string()).is_none());
    assert!(route_task(&ring, &"zzzzz-rest".to_string()).is_none());
}

//! Laws of the reconciliation: proofs that the bucketing and the
//! framing dispose of every announceable peer exactly once and respect
//! the frame bound.

use vstd::prelude::*;
use crate::MAX_PEERS_PER_FRAME;
use crate::messages::PeerView;
use crate::reconciler::{
    spec_announceable, spec_bucket, spec_deletions_prefix, spec_distinct_keys, spec_frames,
    spec_routed_prefix, spec_task_endpoint, LocalTask,
};

verus! {

/// The peer records of the routed pairs, in scan order.
pub open spec fn spec_routed_peers(rs: Seq<(Seq<char>, PeerView)>) -> Seq<PeerView> {
    rs.map_values(|p: (Seq<char>, PeerView)| p.1)
}

/// The per-endpoint buckets laid end to end, endpoints in
/// first-appearance order.
pub open spec fn spec_concat_buckets(
    rs: Seq<(Seq<char>, PeerView)>,
    keys: Seq<Seq<char>>,
) -> Seq<PeerView>
    decreases keys.len(),
{
    if keys.len() == 0 {
        Seq::empty()
    } else {
        spec_concat_buckets(rs, keys.drop_last()) + spec_bucket(rs, keys.last())
    }
}

/// The distinct endpoints carry no duplicate.
pub proof fn lemma_distinct_keys_no_dup(rs: Seq<(Seq<char>, PeerView)>)
    ensures
        forall|a: int, b: int|
            0 <= a < b < spec_distinct_keys(rs).len() ==> spec_distinct_keys(rs)[a]
                != spec_distinct_keys(rs)[b],
    decreases rs.len(),
{
    if rs.len() == 0 {
    } else {
        let pre = spec_distinct_keys(rs.drop_last());
        lemma_distinct_keys_no_dup(rs.drop_last());
        if !pre.contains(rs.last().0) {
            assert forall|a: int, b: int|
                0 <= a < b < pre.push(rs.last().0).len() implies pre.push(rs.last().0)[a] != pre.push(
                rs.last().0,
            )[b] by {
                if b < pre.len() {
                } else {
                    assert(pre.push(rs.last().0)[a] == pre[a]);
                    assert(pre[a] != rs.last().0) by {
                        if pre[a] == rs.last().0 {
                            assert(pre.contains(rs.last().0));
                        }
                    }
                }
            }
        }
    }
}

/// Every routed pair's endpoint is among the distinct endpoints.
pub proof fn lemma_distinct_keys_cover(rs: Seq<(Seq<char>, PeerView)>, i: int)
    requires
        0 <= i < rs.len(),
    ensures
        spec_distinct_keys(rs).contains(rs[i].0),
    decreases rs.len(),
{
    let pre = spec_distinct_keys(rs.drop_last());
    if i == rs.len() - 1 {
        if pre.contains(rs.last().0) {
        } else {
            assert(pre.push(rs.last().0)[pre.len() as int] == rs.last().0);
        }
    } else {
        lemma_distinct_keys_cover(rs.drop_last(), i);
        assert(rs.drop_last()[i] == rs[i]);
        let w = choose|w: int| 0 <= w < pre.len() && pre[w] == rs[i].0;
        if pre.contains(rs.last().0) {
        } else {
            assert(pre.push(rs.last().0)[w] == rs[i].0);
        }
    }
}

/// An endpoint no routed pair names has an empty bucket.
pub proof fn lemma_bucket_absent(rs: Seq<(Seq<char>, PeerView)>, key: Seq<char>)
    requires
        forall|i: int| 0 <= i < rs.len() ==> rs[i].0 != key,
    ensures
        spec_bucket(rs, key) == Seq::<PeerView>::empty(),
    decreases rs.len(),
{
    if rs.len() == 0 {
    } else {
        assert(forall|i: int| 0 <= i < rs.drop_last().len() ==> rs.drop_last()[i] == rs[i]);
        lemma_bucket_absent(rs.drop_last(), key);
        assert(rs.last() == rs[rs.len() - 1]);
    }
}

/// Appending one routed pair adds its peer to exactly the bucket of
/// its endpoint: over a duplicate-free key list, the concatenation of
/// the buckets grows by exactly that one peer when the list carries
/// the pair's endpoint, and not at all when it does not.
pub proof fn lemma_concat_buckets_extend(
    rs: Seq<(Seq<char>, PeerView)>,
    x: (Seq<char>, PeerView),
    keys: Seq<Seq<char>>,
)
    requires
        forall|a: int, b: int| 0 <= a < b < keys.len() ==> keys[a] != keys[b],
    ensures
        keys.contains(x.0) ==> spec_concat_buckets(rs.push(x), keys).to_multiset()
            == spec_concat_buckets(rs, keys).to_multiset().insert(x.1),
        !keys.contains(x.0) ==> spec_concat_buckets(rs.push(x), keys).to_multiset()
            == spec_concat_buckets(rs, keys).to_multiset(),
    decreases keys.len(),
{
    broadcast use vstd::seq_lib::to_multiset_build;
    broadcast use vstd::seq_lib::lemma_multiset_commutative;
    broadcast use vstd::multiset::group_multiset_axioms;

    if keys.len() == 0 {
        assert(!keys.contains(x.0));
    } else {
        let kl = keys.last();
        let dl = keys.drop_last();
        assert(forall|a: int, b: int| 0 <= a < b < dl.len() ==> dl[a] != dl[b]) by {
            assert(forall|a: int| 0 <= a < dl.len() ==> dl[a] == keys[a]);
        }
        lemma_concat_buckets_extend(rs, x, dl);
        assert(rs.push(x).drop_last() =~= rs);
        assert(rs.push(x).last() == x);
        let ca_new = spec_concat_buckets(rs.push(x), dl);
        let ca_old = spec_concat_buckets(rs, dl);
        let bl_new = spec_bucket(rs.push(x), kl);
        let bl_old = spec_bucket(rs, kl);
        assert(spec_concat_buckets(rs.push(x), keys) == ca_new + bl_new);
        assert(spec_concat_buckets(rs, keys) == ca_old + bl_old);
        if x.0 == kl {
            assert(!dl.contains(x.0)) by {
                if dl.contains(x.0) {
                    let a = choose|a: int| 0 <= a < dl.len() && dl[a] == x.0;
                    assert(keys[a] == keys[keys.len() - 1]);
                }
            }
            assert(bl_new == bl_old.push(x.1));
            assert(ca_new.to_multiset() == ca_old.to_multiset());
            assert((ca_new + bl_new).to_multiset() =~= (ca_old + bl_old).to_multiset().insert(
                x.1,
            ));
            assert(keys.contains(x.0)) by {
                assert(keys[keys.len() - 1] == x.0);
            }
        } else {
            assert(bl_new == bl_old);
            assert(keys.contains(x.0) <==> dl.contains(x.0)) by {
                if keys.contains(x.0) {
                    let a = choose|a: int| 0 <= a < keys.len() && keys[a] == x.0;
                    assert(a < keys.len() - 1);
                    assert(dl[a] == x.0);
                }
                if dl.contains(x.0) {
                    let a = choose|a: int| 0 <= a < dl.len() && dl[a] == x.0;
                    assert(keys[a] == x.0);
                }
            }
            if keys.contains(x.0) {
                assert((ca_new + bl_new).to_multiset() =~= (ca_old + bl_old).to_multiset().insert(
                    x.1,
                ));
            } else {
                assert((ca_new + bl_new).to_multiset() =~= (ca_old + bl_old).to_multiset());
            }
        }
    }
}

/// Law: bucketing disposes of every routed peer exactly once.  The
/// buckets of the distinct endpoints, taken together, hold exactly the
/// routed peer records — as multisets, since bucketing regroups the
/// scan order per endpoint.
pub proof fn lemma_buckets_partition_routed(rs: Seq<(Seq<char>, PeerView)>)
    ensures
        spec_concat_buckets(rs, spec_distinct_keys(rs)).to_multiset() == spec_routed_peers(
            rs,
        ).to_multiset(),
    decreases rs.len(),
{
    broadcast use vstd::seq_lib::to_multiset_build;
    broadcast use vstd::seq_lib::lemma_multiset_commutative;
    broadcast use vstd::multiset::group_multiset_axioms;

    if rs.len() == 0 {
        assert(spec_routed_peers(rs) =~= Seq::<PeerView>::empty());
    } else {
        let rsp = rs.drop_last();
        let x = rs.last();
        lemma_buckets_partition_routed(rsp);
        lemma_distinct_keys_no_dup(rsp);
        let keysp = spec_distinct_keys(rsp);
        assert(rsp.push(x) =~= rs);
        lemma_concat_buckets_extend(rsp, x, keysp);
        assert(spec_routed_peers(rs) =~= spec_routed_peers(rsp).push(x.1));
        if keysp.contains(x.0) {
            assert(spec_distinct_keys(rs) == keysp);
            assert(spec_concat_buckets(rs, keysp).to_multiset() == spec_concat_buckets(
                rsp,
                keysp,
            ).to_multiset().insert(x.1));
            assert(spec_routed_peers(rs).to_multiset() == spec_routed_peers(
                rsp,
            ).to_multiset().insert(x.1));
        } else {
            assert(spec_distinct_keys(rs) == keysp.push(x.0));
            assert(forall|i: int| 0 <= i < rsp.len() ==> rsp[i].0 != x.0) by {
                assert forall|i: int| 0 <= i < rsp.len() implies rsp[i].0 != x.0 by {
                    if rsp[i].0 == x.0 {
                        lemma_distinct_keys_cover(rsp, i);
                    }
                }
            }
            lemma_bucket_absent(rsp, x.0);
            assert(spec_bucket(rs, x.0) == spec_bucket(rsp, x.0).push(x.1));
            assert(spec_bucket(rs, x.0) =~= seq![x.1]);
            assert(spec_concat_buckets(rs, keysp.push(x.0)) == spec_concat_buckets(
                rs,
                keysp.push(x.0).drop_last(),
            ) + spec_bucket(rs, keysp.push(x.0).last()));
            assert(keysp.push(x.0).drop_last() =~= keysp);
            assert(spec_concat_buckets(rs, keysp).to_multiset() == spec_concat_buckets(
                rsp,
                keysp,
            ).to_multiset());
            assert(spec_concat_buckets(rs, keysp) + seq![x.1] =~= spec_concat_buckets(
                rs,
                keysp,
            ).push(x.1));
            assert(spec_routed_peers(rs).to_multiset() == spec_routed_peers(
                rsp,
            ).to_multiset().insert(x.1));
        }
    }
}

/// Law: a scan disposes of every task exactly once — each of the
/// first `n` tasks contributes either one eviction request or one
/// routed peer, never both and never neither, as long as the ring
/// covers every announceable task among them.
pub proof fn lemma_scan_disposes_each_task_once(
    ring: Seq<(String, String)>,
    tasks: Seq<LocalTask>,
    peer_ids: Seq<String>,
    host_id: Seq<char>,
    del_host_id: String,
    now_ms: u64,
    ttl_ms: u64,
    n: int,
)
    requires
        0 <= n <= tasks.len(),
        forall|i: int|
            0 <= i < n && spec_announceable(tasks[i], now_ms, ttl_ms) ==> spec_task_endpoint(
                ring,
                tasks[i].id@,
            ) is Some,
    ensures
        spec_routed_prefix(ring, tasks, peer_ids, host_id, now_ms, ttl_ms, n).len()
            + spec_deletions_prefix(del_host_id, tasks, now_ms, ttl_ms, n).len() == n,
    decreases n,
{
    if n > 0 {
        lemma_scan_disposes_each_task_once(
            ring,
            tasks,
            peer_ids,
            host_id,
            del_host_id,
            now_ms,
            ttl_ms,
            n - 1,
        );
    }
}

/// A key among the distinct endpoints is the endpoint of some routed
/// pair.
pub proof fn lemma_distinct_keys_sound(rs: Seq<(Seq<char>, PeerView)>, j: int)
    requires
        0 <= j < spec_distinct_keys(rs).len(),
    ensures
        exists|i: int| 0 <= i < rs.len() && rs[i].0 == spec_distinct_keys(rs)[j],
    decreases rs.len(),
{
    let pre = spec_distinct_keys(rs.drop_last());
    if rs.len() == 0 {
    } else if j < pre.len() {
        lemma_distinct_keys_sound(rs.drop_last(), j);
        let w = choose|i: int|
            0 <= i < rs.drop_last().len() && rs.drop_last()[i].0 == pre[j];
        assert(rs[w].0 == spec_distinct_keys(rs)[j]);
    } else {
        assert(!pre.contains(rs.last().0) && j == pre.len());
        assert(rs[rs.len() - 1].0 == spec_distinct_keys(rs)[j]);
    }
}

/// The bucket of an endpoint some routed pair names is not empty.
pub proof fn lemma_bucket_of_present_key(rs: Seq<(Seq<char>, PeerView)>, i: int)
    requires
        0 <= i < rs.len(),
    ensures
        spec_bucket(rs, rs[i].0).len() > 0,
    decreases rs.len(),
{
    if i < rs.len() - 1 {
        assert(rs.drop_last()[i] == rs[i]);
        lemma_bucket_of_present_key(rs.drop_last(), i);
    }
}

/// Every peer of a bucket comes from a routed pair naming that
/// endpoint.
pub proof fn lemma_bucket_members(rs: Seq<(Seq<char>, PeerView)>, key: Seq<char>, q: int)
    requires
        0 <= q < spec_bucket(rs, key).len(),
    ensures
        exists|i: int|
            0 <= i < rs.len() && rs[i].0 == key && rs[i].1 == spec_bucket(rs, key)[q],
    decreases rs.len(),
{
    if rs.len() == 0 {
    } else {
        let pre = spec_bucket(rs.drop_last(), key);
        if q < pre.len() {
            lemma_bucket_members(rs.drop_last(), key, q);
            let w = choose|i: int|
                0 <= i < rs.drop_last().len() && rs.drop_last()[i].0 == key && rs.drop_last()[
                    i
                ].1 == pre[q];
            assert(rs[w].0 == key && rs[w].1 == spec_bucket(rs, key)[q]);
        } else {
            assert(rs.last().0 == key && q == pre.len());
            assert(rs[rs.len() - 1].1 == spec_bucket(rs, key)[q]);
        }
    }
}

/// Every routed pair carries a task id long enough to form a route
/// key, so every bulk announcement can be routed by its first peer's
/// task id.
pub proof fn lemma_routed_ids_are_routable(
    ring: Seq<(String, String)>,
    tasks: Seq<LocalTask>,
    peer_ids: Seq<String>,
    host_id: Seq<char>,
    now_ms: u64,
    ttl_ms: u64,
    n: int,
)
    ensures
        forall|q: int|
            0 <= q < spec_routed_prefix(ring, tasks, peer_ids, host_id, now_ms, ttl_ms, n).len()
                ==> #[trigger] spec_routed_prefix(
                ring,
                tasks,
                peer_ids,
                host_id,
                now_ms,
                ttl_ms,
                n,
            )[q].1.task.id.len() >= crate::reconciler::ROUTE_KEY_CHARS,
    decreases n,
{
    if n > 0 {
        lemma_routed_ids_are_routable(ring, tasks, peer_ids, host_id, now_ms, ttl_ms, n - 1);
        let pre = spec_routed_prefix(ring, tasks, peer_ids, host_id, now_ms, ttl_ms, n - 1);
        let cur = spec_routed_prefix(ring, tasks, peer_ids, host_id, now_ms, ttl_ms, n);
        if spec_announceable(tasks[n - 1], now_ms, ttl_ms) {
            match spec_task_endpoint(ring, tasks[n - 1].id@) {
                Some(addr) => {
                    assert(tasks[n - 1].id@.len() >= crate::reconciler::ROUTE_KEY_CHARS);
                    assert forall|q: int|
                        0 <= q < cur.len() implies #[trigger] cur[q].1.task.id.len()
                        >= crate::reconciler::ROUTE_KEY_CHARS by {
                        if q < pre.len() {
                            assert(cur[q] == pre[q]);
                        } else {
                            assert(cur[q] == cur.last());
                        }
                    }
                },
                None => {},
            }
        }
    }
}

/// The frames of a bulk announcement laid end to end.
pub open spec fn spec_concat_frames(fs: Seq<Seq<PeerView>>) -> Seq<PeerView>
    decreases fs.len(),
{
    if fs.len() == 0 {
        Seq::empty()
    } else {
        fs.first() + spec_concat_frames(fs.drop_first())
    }
}

/// Law: the frames of a bulk announcement each carry at most
/// `MAX_PEERS_PER_FRAME` peers and at least one; every frame but the
/// last carries exactly `MAX_PEERS_PER_FRAME`; and the frames in order
/// carry exactly the peers of the announcement.
pub proof fn lemma_frames_shape(s: Seq<PeerView>)
    ensures
        forall|j: int|
            0 <= j < spec_frames(s).len() ==> #[trigger] spec_frames(s)[j].len()
                <= MAX_PEERS_PER_FRAME,
        forall|j: int| 0 <= j < spec_frames(s).len() ==> #[trigger] spec_frames(s)[j].len() > 0,
        forall|j: int|
            0 <= j < spec_frames(s).len() - 1 ==> #[trigger] spec_frames(s)[j].len()
                == MAX_PEERS_PER_FRAME,
        spec_concat_frames(spec_frames(s)) == s,
    decreases s.len(),
{
    if s.len() == 0 {
    } else if s.len() <= MAX_PEERS_PER_FRAME {
        assert(spec_frames(s) == seq![s]);
        assert(seq![s].drop_first() =~= Seq::<Seq<PeerView>>::empty());
        assert(seq![s].first() == s);
        assert(spec_concat_frames(Seq::<Seq<PeerView>>::empty()) == Seq::<PeerView>::empty());
        assert(spec_concat_frames(seq![s]) == s + Seq::<PeerView>::empty());
        assert(s + Seq::<PeerView>::empty() =~= s);
    } else {
        let head = s.subrange(0, MAX_PEERS_PER_FRAME as int);
        let tail = s.subrange(MAX_PEERS_PER_FRAME as int, s.len() as int);
        lemma_frames_shape(tail);
        let fs = spec_frames(s);
        assert(fs == seq![head] + spec_frames(tail));
        assert(fs[0] == head);
        assert(forall|j: int|
            1 <= j < fs.len() ==> #[trigger] fs[j] == spec_frames(tail)[j - 1]);
        assert(spec_frames(tail).len() > 0);
        assert(fs.drop_first() =~= spec_frames(tail));
        assert(fs.first() == head);
        assert(spec_concat_frames(fs) == head + spec_concat_frames(spec_frames(tail)));
        assert(head + tail =~= s);
    }
}

} // verus!

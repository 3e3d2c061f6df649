//! Snapshot of the scheduler hash ring.
//!
//! The transport layer owns the live ring — a mapping from
//! five-character task-id prefixes to scheduler endpoints — and updates
//! it out of band.  The reconciler takes one consistent snapshot under
//! the ring's read lock, materialized as plain entries, and routes
//! every task of a scan against that snapshot alone.

use vstd::prelude::*;

verus! {

/// One consistent copy of the hash ring: (route key, endpoint address)
/// entries.  A key decides its endpoint by its first entry.
pub struct RingSnapshot {
    pub entries: Vec<(String, String)>,
}

/// Entry `i` is the first whose key reads `key`.
pub open spec fn spec_is_first_match(
    entries: Seq<(String, String)>,
    key: Seq<char>,
    i: int,
) -> bool {
    &&& 0 <= i < entries.len()
    &&& entries[i].0@ == key
    &&& forall|j: int| 0 <= j < i ==> entries[j].0@ != key
}

/// The endpoint the ring assigns to a route key, if any.
pub open spec fn spec_ring_endpoint(entries: Seq<(String, String)>, key: Seq<char>) -> Option<
    Seq<char>,
> {
    if exists|i: int| spec_is_first_match(entries, key, i) {
        Some(entries[choose|i: int| spec_is_first_match(entries, key, i)].1@)
    } else {
        None
    }
}

impl RingSnapshot {
    /// Looks a route key up in the snapshot: the index of the entry
    /// that decides its endpoint, or nothing when the ring does not
    /// cover the key.
    pub fn lookup(&self, key: &String) -> (r: Option<usize>)
        ensures
            match r {
                Some(i) => {
                    &&& spec_is_first_match(self.entries@, key@, i as int)
                    &&& spec_ring_endpoint(self.entries@, key@) == Some(
                        self.entries@[i as int].1@,
                    )
                },
                None => {
                    &&& forall|j: int|
                        0 <= j < self.entries@.len() ==> self.entries@[j].0@ != key@
                    &&& spec_ring_endpoint(self.entries@, key@) is None
                },
            },
    {
        let n = self.entries.len();
        let mut i: usize = 0;
        while i < n
            invariant
                n == self.entries@.len(),
                i <= n,
                forall|j: int| 0 <= j < i ==> self.entries@[j].0@ != key@,
            decreases n - i,
        {
            if self.entries[i].0 == *key {
                proof {
                    assert(spec_is_first_match(self.entries@, key@, i as int));
                    let w = choose|k: int| spec_is_first_match(self.entries@, key@, k);
                    assert(spec_is_first_match(self.entries@, key@, w));
                    assert(w == i as int) by {
                        if w < i as int {
                            assert(self.entries@[w].0@ != key@);
                        } else if w > i as int {
                            assert(self.entries@[i as int].0@ != key@);
                        }
                    }
                }
                return Some(i);
            }
            i = i + 1;
        }
        proof {
            if exists|k: int| spec_is_first_match(self.entries@, key@, k) {
                let w = choose|k: int| spec_is_first_match(self.entries@, key@, k);
                assert(self.entries@[w].0@ != key@);
            }
        }
        None
    }
}

} // verus!

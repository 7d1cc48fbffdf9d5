//! Resource-table registry of live workers.
//!
//! The registry is an explicit object owned by whatever supervises workers:
//! it hands out fresh numeric worker ids and keeps one entry per live
//! worker. A worker's entry is created when the worker is constructed and
//! removed exactly once, on the worker's transition to `Completed`, so the
//! surrounding system can reclaim the worker's resources.

use vstd::prelude::*;

verus! {

/// Registry of live worker ids. Ids are handed out by a counter, so every
/// live id is unique and below `next_id`.
pub struct WorkerRegistry {
    pub next_id: u64,
    pub live: Vec<u64>,
}

impl WorkerRegistry {
    /// Every registered id was handed out by the counter, and no id is
    /// registered twice.
    pub open spec fn wf(&self) -> bool {
        &&& forall|i: int| 0 <= i < self.live@.len() ==> self.live@[i] < self.next_id
        &&& forall|i: int, j: int|
            0 <= i < j < self.live@.len() ==> self.live@[i] != self.live@[j]
    }

    pub open spec fn is_live(&self, id: u64) -> bool {
        self.live@.contains(id)
    }

    /// An empty registry whose first worker will get id 0.
    pub fn new() -> (r: WorkerRegistry)
        ensures
            r.wf(),
            r.live@ == Seq::<u64>::empty(),
            r.next_id == 0,
    {
        WorkerRegistry { next_id: 0, live: Vec::new() }
    }

    /// Create the entry for a new worker and return its fresh id: an id that
    /// no live worker holds and that will never be handed out again.
    pub fn register(&mut self) -> (id: u64)
        requires
            old(self).wf(),
            old(self).next_id < u64::MAX,
        ensures
            final(self).wf(),
            id == old(self).next_id,
            final(self).next_id == id + 1,
            final(self).live@ == old(self).live@.push(id),
            final(self).is_live(id),
            !old(self).is_live(id),
            forall|x: u64| x != id ==> final(self).is_live(x) == old(self).is_live(x),
    {
        let id = self.next_id;
        self.next_id = self.next_id + 1;
        self.live.push(id);
        proof {
            assert(self.live@[self.live@.len() - 1] == id);
            assert(!old(self).live@.contains(id)) by {
                assert(forall|i: int|
                    0 <= i < old(self).live@.len() ==> old(self).live@[i] != id);
            }
            assert(forall|x: u64|
                x != id && old(self).is_live(x) ==> #[trigger] final(self).is_live(x)) by {
                assert(forall|i: int|
                    0 <= i < old(self).live@.len() ==> final(self).live@[i] == old(self).live@[i]);
            }
            assert(forall|x: u64|
                x != id && final(self).is_live(x) ==> #[trigger] old(self).is_live(x)) by {
                assert(forall|i: int|
                    0 <= i < old(self).live@.len() ==> final(self).live@[i] == old(self).live@[i]);
            }
        }
        id
    }

    /// Whether a worker id currently has an entry.
    pub fn is_registered(&self, id: u64) -> (r: bool)
        ensures
            r == self.is_live(id),
    {
        let mut i: usize = 0;
        while i < self.live.len()
            invariant
                i <= self.live@.len(),
                forall|k: int| 0 <= k < i ==> self.live@[k] != id,
            decreases self.live@.len() - i,
        {
            if self.live[i] == id {
                return true;
            }
            i = i + 1;
        }
        false
    }

    /// Remove the entry for `id`, if there is one. Because ids are unique,
    /// after the call no entry for `id` is left, every other worker's entry
    /// is untouched, and the call reports whether an entry was removed.
    pub fn unregister(&mut self, id: u64) -> (found: bool)
        requires
            old(self).wf(),
        ensures
            final(self).wf(),
            final(self).next_id == old(self).next_id,
            found == old(self).is_live(id),
            !final(self).is_live(id),
            forall|x: u64| x != id ==> final(self).is_live(x) == old(self).is_live(x),
            found ==> final(self).live@.len() == old(self).live@.len() - 1,
            !found ==> final(self).live@ == old(self).live@,
    {
        let mut i: usize = 0;
        while i < self.live.len()
            invariant
                old(self).wf(),
                i <= self.live@.len(),
                forall|k: int| 0 <= k < i ==> self.live@[k] != id,
                *self == *old(self),
            decreases self.live@.len() - i,
        {
            if self.live[i] == id {
                let ghost pre = self.live@;
                self.live.remove(i);
                proof {
                    let post = self.live@;
                    assert(pre[i as int] == id);
                    assert(pre.contains(id));
                    assert(forall|k: int| 0 <= k < i ==> post[k] == pre[k]);
                    assert(forall|k: int| i <= k < post.len() ==> post[k] == pre[k + 1]);
                    assert forall|k: int| 0 <= k < post.len() implies post[k] != id by {
                        if k >= i {
                            assert(post[k] == pre[k + 1]);
                        }
                    }
                    assert(!post.contains(id));
                    assert forall|x: u64| x != id && pre.contains(x) implies post.contains(x) by {
                        let k = choose|k: int| 0 <= k < pre.len() && pre[k] == x;
                        if k < i {
                            assert(post[k] == x);
                        } else {
                            assert(k != i);
                            assert(post[k - 1] == x);
                        }
                    }
                    assert forall|x: u64| post.contains(x) implies pre.contains(x) by {
                        let k = choose|k: int| 0 <= k < post.len() && post[k] == x;
                        if k < i {
                            assert(pre[k] == x);
                        } else {
                            assert(pre[k + 1] == x);
                        }
                    }
                    assert forall|a: int, b: int| 0 <= a < b < post.len() implies post[a]
                        != post[b] by {
                        let pa = if a < i { a } else { a + 1 };
                        let pb = if b < i { b } else { b + 1 };
                        assert(post[a] == pre[pa]);
                        assert(post[b] == pre[pb]);
                        assert(pre[pa] != pre[pb]);
                    }
                    assert forall|k: int| 0 <= k < post.len() implies post[k]
                        < self.next_id by {
                        if k >= i {
                            assert(post[k] == pre[k + 1]);
                        }
                    }
                }
                return true;
            }
            i = i + 1;
        }
        proof {
            assert(forall|k: int| 0 <= k < self.live@.len() ==> self.live@[k] != id);
            assert(!self.live@.contains(id));
        }
        false
    }
}

} // verus!

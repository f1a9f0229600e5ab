//! A bounded store of decoded frames, keyed by frame index, with
//! least-recently-used eviction.
//!
//! The store keeps its entries in recency order — the least recently touched
//! entry first, the most recently touched last — so the entry evicted on
//! overflow is always the first one. A hit refreshes an entry's recency
//! before any later eviction decision; reads hand out copies, never shared
//! mutable references.

use vstd::prelude::*;

use crate::frame::Frame;

verus! {

pub struct FrameCache {
    pub entries: Vec<(usize, Frame)>,
    pub max_size: usize,
}

impl FrameCache {
    /// The cached frame indices, least recently used first.
    pub open spec fn keys(self) -> Seq<usize> {
        self.view().map_values(|p: (usize, Frame)| p.0)
    }

    /// The cache's entries in recency order, least recently used first.
    pub open spec fn view(self) -> Seq<(usize, Frame)> {
        self.entries@
    }

    pub open spec fn spec_max_size(self) -> usize {
        self.max_size
    }

    pub open spec fn contains_key(self, index: usize) -> bool {
        self.keys().contains(index)
    }

    /// Position of a cached index in recency order.
    pub open spec fn key_pos(self, index: usize) -> int {
        self.keys().index_of(index)
    }

    /// The frame stored under a cached index.
    pub open spec fn frame_of(self, index: usize) -> Frame {
        self.view()[self.key_pos(index)].1
    }

    /// Well-formedness: a positive capacity never exceeded, distinct keys,
    /// and well-formed frames.
    pub open spec fn wf(self) -> bool {
        &&& 1 <= self.max_size
        &&& self.view().len() <= self.max_size
        &&& forall|i: int, j: int|
            0 <= i < j < self.view().len() ==> (#[trigger] self.view()[i]).0 != (
            #[trigger] self.view()[j]).0
        &&& forall|i: int| 0 <= i < self.view().len() ==> (#[trigger] self.view()[i]).1.wf()
    }

    /// Creates an empty cache that will hold at most `max_size` frames.
    pub fn new(max_size: usize) -> (c: FrameCache)
        requires
            1 <= max_size,
        ensures
            c.wf(),
            c.view().len() == 0,
            c.spec_max_size() == max_size,
    {
        FrameCache { entries: Vec::new(), max_size }
    }

    pub fn len(&self) -> (n: usize)
        ensures
            n == self.view().len(),
    {
        self.entries.len()
    }

    pub fn capacity(&self) -> (n: usize)
        ensures
            n == self.spec_max_size(),
    {
        self.max_size
    }

    /// Position of `index` among the entries, scanning in recency order.
    fn find(&self, index: usize) -> (r: Option<usize>)
        ensures
            match r {
                Some(k) => k < self.view().len() && self.view()[k as int].0 == index,
                None => !self.contains_key(index),
            },
    {
        let mut k: usize = 0;
        let n = self.entries.len();
        while k < n
            invariant
                k <= n,
                n == self.view().len(),
                forall|i: int| 0 <= i < k ==> (#[trigger] self.view()[i]).0 != index,
            decreases n - k,
        {
            if self.entries[k].0 == index {
                return Some(k);
            }
            k = k + 1;
        }
        proof {
            assert forall|i: int| 0 <= i < self.keys().len() implies self.keys()[i] != index by {
                assert(self.keys()[i] == self.view()[i].0);
            }
        }
        None
    }

    /// Looks a frame index up. On a hit the entry becomes the most recently
    /// used and a copy of its frame is returned; on a miss the cache is
    /// untouched and the caller must decode the frame itself.
    pub fn get(&mut self, index: usize) -> (r: Option<Frame>)
        requires
            old(self).wf(),
        ensures
            final(self).wf(),
            final(self).spec_max_size() == old(self).spec_max_size(),
            r is Some <==> old(self).contains_key(index),
            match r {
                Some(f) => {
                    let pos = old(self).key_pos(index);
                    &&& f.spec_width() == old(self).frame_of(index).spec_width()
                    &&& f.spec_height() == old(self).frame_of(index).spec_height()
                    &&& f.data() == old(self).frame_of(index).data()
                    &&& f.wf()
                    &&& final(self).view() == old(self).view().remove(pos).push(
                        old(self).view()[pos],
                    )
                },
                None => final(self).view() == old(self).view(),
            },
    {
        let found = self.find(index);
        match found {
            Some(k) => {
                proof {
                    lemma_distinct_key_pos(self.view(), index, k as int);
                }
                let entry = self.entries.remove(k);
                let copy = entry.1.duplicate();
                self.entries.push(entry);
                proof {
                    lemma_remove_push_keeps_wf(old(self).view(), self.view(), k as int);
                }
                Some(copy)
            },
            None => None,
        }
    }

    /// Stores a frame under an index and makes it the most recently used
    /// entry. An index already present is overwritten in place of its old
    /// entry; a fresh index entering a full cache first evicts the least
    /// recently used entry — the first in recency order — and no other.
    pub fn insert(&mut self, index: usize, frame: Frame)
        requires
            old(self).wf(),
            frame.wf(),
        ensures
            final(self).wf(),
            final(self).spec_max_size() == old(self).spec_max_size(),
            final(self).contains_key(index),
            old(self).contains_key(index) ==> final(self).view() == old(self).view().remove(
                old(self).key_pos(index),
            ).push((index, frame)),
            !old(self).contains_key(index) && old(self).view().len() < old(self).spec_max_size()
                ==> final(self).view() == old(self).view().push((index, frame)),
            !old(self).contains_key(index) && old(self).view().len() == old(self).spec_max_size()
                ==> final(self).view() == old(self).view().subrange(
                1,
                old(self).view().len() as int,
            ).push((index, frame)),
    {
        let found = self.find(index);
        match found {
            Some(k) => {
                proof {
                    lemma_distinct_key_pos(self.view(), index, k as int);
                }
                let _ = self.entries.remove(k);
                self.entries.push((index, frame));
                proof {
                    assert(self.view().subrange(0, self.view().len() - 1) =~= old(
                        self,
                    ).view().remove(k as int));
                    lemma_remove_push_keeps_wf_fresh(old(self).view(), self.view(), k as int, index);
                }
            },
            None => {
                if self.entries.len() == self.max_size {
                    let _ = self.entries.remove(0);
                    self.entries.push((index, frame));
                    proof {
                        assert(self.view().subrange(0, self.view().len() - 1) =~= old(
                            self,
                        ).view().remove(0));
                        assert forall|i: int| 0 <= i < old(self).view().len() implies (
                        #[trigger] old(self).view()[i]).0 != index by {
                            assert(old(self).keys()[i] == old(self).view()[i].0);
                        }
                        lemma_remove_push_keeps_wf_fresh(old(self).view(), self.view(), 0, index);
                        assert(self.view() =~= old(self).view().subrange(
                            1,
                            old(self).view().len() as int,
                        ).push((index, frame)));
                    }
                } else {
                    self.entries.push((index, frame));
                    proof {
                        assert forall|i: int, j: int|
                            0 <= i < j < self.view().len() implies (#[trigger] self.view()[i]).0
                            != (#[trigger] self.view()[j]).0 by {
                            if j == self.view().len() - 1 {
                                assert(old(self).keys()[i] == old(self).view()[i].0);
                            }
                        }
                    }
                }
            },
        }
        proof {
            assert(final(self).view().last() == (index, frame));
            assert(final(self).keys()[final(self).keys().len() - 1] == index);
            assert(final(self).contains_key(index));
        }
    }

    /// Empties the store and the recency order; invoked when new media is
    /// loaded.
    pub fn clear(&mut self)
        requires
            old(self).wf(),
        ensures
            final(self).wf(),
            final(self).spec_max_size() == old(self).spec_max_size(),
            final(self).view().len() == 0,
    {
        self.entries.clear();
    }
}

/// In a cache with distinct keys, the position where a key was found is the
/// key's unique position.
proof fn lemma_distinct_key_pos(s: Seq<(usize, Frame)>, index: usize, k: int)
    requires
        0 <= k < s.len(),
        s[k].0 == index,
        forall|i: int, j: int| 0 <= i < j < s.len() ==> (#[trigger] s[i]).0 != (#[trigger] s[j]).0,
    ensures
        s.map_values(|p: (usize, Frame)| p.0).index_of(index) == k,
        s.map_values(|p: (usize, Frame)| p.0).contains(index),
{
    let keys = s.map_values(|p: (usize, Frame)| p.0);
    assert(keys[k] == index);
    assert(keys.contains(index));
    let k2 = keys.index_of(index);
    assert(keys[k2] == index);
    if k2 != k {
        if k2 < k {
            assert(s[k2].0 != s[k].0);
        } else {
            assert(s[k].0 != s[k2].0);
        }
        assert(false);
    }
}

/// Removing an entry and pushing it back keeps keys distinct and frames
/// well-formed.
proof fn lemma_remove_push_keeps_wf(before: Seq<(usize, Frame)>, after: Seq<(usize, Frame)>, k: int)
    requires
        0 <= k < before.len(),
        after == before.remove(k).push(before[k]),
        forall|i: int, j: int|
            0 <= i < j < before.len() ==> (#[trigger] before[i]).0 != (#[trigger] before[j]).0,
        forall|i: int| 0 <= i < before.len() ==> (#[trigger] before[i]).1.wf(),
    ensures
        after.len() == before.len(),
        forall|i: int, j: int|
            0 <= i < j < after.len() ==> (#[trigger] after[i]).0 != (#[trigger] after[j]).0,
        forall|i: int| 0 <= i < after.len() ==> (#[trigger] after[i]).1.wf(),
{
    assert(after.subrange(0, after.len() - 1) =~= before.remove(k));
    lemma_remove_push_keeps_wf_fresh(before, after, k, before[k].0);
}

/// Removing the entry that held `index` (or the evicted one) and pushing a
/// fresh entry for `index` keeps keys distinct, provided `index` occurs
/// nowhere else.
proof fn lemma_remove_push_keeps_wf_fresh(
    before: Seq<(usize, Frame)>,
    after: Seq<(usize, Frame)>,
    k: int,
    index: usize,
)
    requires
        0 <= k < before.len(),
        after.len() == before.len(),
        after.subrange(0, after.len() - 1) == before.remove(k),
        after[after.len() - 1].0 == index,
        forall|i: int| 0 <= i < before.len() && i != k ==> (#[trigger] before[i]).0 != index,
        forall|i: int, j: int|
            0 <= i < j < before.len() ==> (#[trigger] before[i]).0 != (#[trigger] before[j]).0,
        forall|i: int| 0 <= i < before.len() ==> (#[trigger] before[i]).1.wf(),
        after[after.len() - 1].1.wf(),
    ensures
        forall|i: int, j: int|
            0 <= i < j < after.len() ==> (#[trigger] after[i]).0 != (#[trigger] after[j]).0,
        forall|i: int| 0 <= i < after.len() ==> (#[trigger] after[i]).1.wf(),
{
    let removed = before.remove(k);
    assert forall|i: int| 0 <= i < after.len() - 1 implies (#[trigger] after[i]) == removed[i] by {
        assert(after.subrange(0, after.len() - 1)[i] == after[i]);
    }
    assert forall|i: int, j: int|
        0 <= i < j < after.len() implies (#[trigger] after[i]).0 != (#[trigger] after[j]).0 by {
        if j < after.len() - 1 {
            if i < k && j < k {
            } else if i < k {
                assert(removed[j] == before[j + 1]);
            } else {
                assert(removed[i] == before[i + 1]);
                assert(removed[j] == before[j + 1]);
            }
        } else {
            if i < k {
                assert(after[i] == removed[i] && removed[i] == before[i]);
            } else {
                assert(after[i] == removed[i] && removed[i] == before[i + 1]);
            }
        }
    }
    assert forall|i: int| 0 <= i < after.len() implies (#[trigger] after[i]).1.wf() by {
        if i < after.len() - 1 {
            if i < k {
                assert(removed[i] == before[i]);
            } else {
                assert(removed[i] == before[i + 1]);
            }
        }
    }
}

/// A refreshed entry survives the next eviction: in a well-formed cache of
/// at least two entries whose most recently used key is `k` — as a hit on
/// `k` leaves it — the least recently used key, which is the one an insert
/// of a fresh index would evict, is not `k`.
pub proof fn lemma_refreshed_key_survives(c: FrameCache, k: usize)
    requires
        c.wf(),
        c.keys().len() >= 2,
        c.keys().last() == k,
    ensures
        c.keys()[0] != k,
{
    assert(c.view()[0].0 != c.view()[c.view().len() - 1].0);
    assert(c.keys()[0] == c.view()[0].0);
    assert(c.keys().last() == c.view()[c.view().len() - 1].0);
}

} // verus!

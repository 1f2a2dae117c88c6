//! 64-bit key that describes the exact location of a point in an octree
//! of maximum depth 20.
//!
//! Bit layout of `key`:
//! - bits 0-2, 3-5, ..., 57-59: cell indices, one 3-bit octant index per
//!   depth level;
//! - bit 60: unused, always 0;
//! - bits 61-63: corner index, which corner of the final cell the key
//!   addresses.
//!
//! Every cell index past the key's depth equals the corner index. That
//! canonical fill is what lets a cell and its descendants toward a
//! corner address that corner with bit-identical keys, so corner data
//! can be shared across depths by a flat map.

use vstd::prelude::*;
use crate::aabb::AABB;
use crate::packed::{get3, set3, get3_spec, set3_spec};
use crate::packed::{lemma_set3_same, lemma_set3_other, lemma_set3_bit60, lemma_set3_noop,
    lemma_set3_twice};

verus! {

broadcast use crate::packed::lemma_get3_bounded;

/// Greatest depth a `TreeKey` can address.
pub const TREE_KEY_MAX_DEPTH: u8 = 20;

#[derive(Clone, Copy, Debug, PartialEq, Eq, Structural, Hash)]
pub struct TreeKey {
    pub key: u64,
    pub depth: u8,
}

/// `k` with cell indices from `i` upward, and the corner field, set to `c`.
pub open spec fn fill_key(k: u64, i: int, c: u64) -> u64
    decreases 20 - i,
{
    if i >= 20 {
        set3_spec(k, 61, c)
    } else {
        fill_key(set3_spec(k, (3 * i) as u64, c), i + 1, c)
    }
}

impl TreeKey {
    /// Cell index at depth level `i + 1` (0-based segment `i`).
    pub open spec fn seg(self, i: int) -> u64 {
        get3_spec(self.key, (3 * i) as u64)
    }

    pub open spec fn spec_corner(self) -> u64 {
        get3_spec(self.key, 61)
    }

    pub open spec fn funny(self) -> u64 {
        (self.key >> 60) & 1
    }

    /// Invariant: bounded depth, a zero bit 60, and every segment past
    /// the depth holding the corner index.
    pub open spec fn wf(self) -> bool {
        &&& self.depth <= 20
        &&& self.funny() == 0
        &&& forall|i: int| self.depth <= i < 20 ==> self.seg(i) == self.spec_corner()
    }

    /// The sequence of valid cell indices.
    pub open spec fn path(self) -> Seq<u64> {
        Seq::new(self.depth as nat, |i: int| self.seg(i))
    }

    pub open spec fn spec_push(self, index: u8) -> TreeKey {
        TreeKey {
            key: set3_spec(self.key, (3 * self.depth) as u64, index as u64),
            depth: (self.depth + 1) as u8,
        }
    }

    pub open spec fn spec_pop(self) -> (TreeKey, u64) {
        (
            TreeKey {
                key: set3_spec(self.key, (3 * (self.depth - 1)) as u64, self.spec_corner()),
                depth: (self.depth - 1) as u8,
            },
            self.seg(self.depth - 1),
        )
    }

    pub open spec fn spec_with_corner(self, c: u64) -> TreeKey {
        TreeKey { key: fill_key(self.key, self.depth as int, c), depth: self.depth }
    }

    /// The key of the root cell, addressing corner 0.
    pub fn root() -> (r: TreeKey)
        ensures
            r.wf(),
            r.key == 0,
            r.depth == 0,
            r.path() == Seq::<u64>::empty(),
            r.spec_corner() == 0,
    {
        let r = TreeKey { key: 0, depth: 0 };
        proof {
            assert(forall|off: u64| (0u64 >> off) & 7 == 0) by (bit_vector);
            assert((0u64 >> 60) & 1 == 0) by (bit_vector);
            assert(r.path() =~= Seq::<u64>::empty());
        }
        r
    }

    /// Build a key from a sequence of cell indices and a corner index.
    pub fn from_iter(cell_indices: &Vec<u8>, corner: u8) -> (r: TreeKey)
        requires
            cell_indices@.len() <= 20,
            forall|i: int| 0 <= i < cell_indices@.len() ==> cell_indices@[i] < 8,
            corner < 8,
        ensures
            r.wf(),
            r.depth == cell_indices@.len(),
            r.path() == cell_indices@.map_values(|v: u8| v as u64),
            r.spec_corner() == corner as u64,
    {
        let mut key = TreeKey::root();
        let mut i: usize = 0;
        while i < cell_indices.len()
            invariant
                cell_indices@.len() <= 20,
                forall|j: int| 0 <= j < cell_indices@.len() ==> cell_indices@[j] < 8,
                0 <= i <= cell_indices@.len(),
                key.wf(),
                key.depth == i,
                key.path() == cell_indices@.take(i as int).map_values(|v: u8| v as u64),
                key.spec_corner() == 0,
            decreases cell_indices@.len() - i,
        {
            key.push(cell_indices[i]);
            proof {
                assert(key.path() =~= cell_indices@.take(i + 1).map_values(|v: u8| v as u64));
            }
            i = i + 1;
        }
        key.set_corner(corner);
        proof {
            assert(cell_indices@.take(cell_indices@.len() as int) =~= cell_indices@);
        }
        key
    }

    /// The valid cell indices, shallowest first.
    pub fn indices(&self) -> (r: Vec<u8>)
        requires self.wf(),
        ensures
            r@.len() == self.depth,
            forall|i: int| 0 <= i < r@.len() ==> r@[i] == self.path()[i],
    {
        let d = self.depth;
        let mut r: Vec<u8> = Vec::new();
        let mut i: u8 = 0;
        while i < d
            invariant
                self.wf(),
                d == self.depth,
                0 <= i <= d,
                r@.len() == i,
                forall|j: int| 0 <= j < i ==> r@[j] == self.path()[j],
            decreases d - i,
        {
            let off: u64 = 3 * (i as u64);
            let v = get3(self.key, off);
            r.push(v as u8);
            proof {
                assert(off == (3 * (i as int)) as u64);
            }
            i = i + 1;
        }
        r
    }

    /// The raw packed bits of the key.
    pub fn raw(&self) -> (r: u64)
        ensures r == self.key,
    {
        self.key
    }

    #[verifier::when_used_as_spec(spec_depth)]
    pub fn depth(&self) -> (r: u8)
        ensures r == self.depth,
    {
        self.depth
    }

    pub open spec fn spec_depth(&self) -> u8 {
        self.depth
    }

    /// The corner of the final cell that this key addresses.
    pub fn corner(&self) -> (r: u8)
        ensures
            r == self.spec_corner(),
            r < 8,
    {
        get3(self.key, 61) as u8
    }

    pub fn at_max_depth(&self) -> (r: bool)
        ensures r == (self.depth == 20),
    {
        self.depth == TREE_KEY_MAX_DEPTH
    }

    /// Appends an octant index as the new deepest segment.
    pub fn push(&mut self, index: u8)
        requires
            old(self).wf(),
            old(self).depth < 20,
            index < 8,
        ensures
            *final(self) == old(self).spec_push(index),
            final(self).wf(),
            final(self).depth == old(self).depth + 1,
            final(self).path() == old(self).path().push(index as u64),
            final(self).spec_corner() == old(self).spec_corner(),
    {
        let ghost o = *self;
        let off: u64 = 3 * (self.depth as u64);
        self.key = set3(self.key, off, index as u64);
        self.depth = self.depth + 1;
        proof {
            let d = o.depth as int;
            assert(off == (3 * d) as u64);
            crate::packed::lemma_set_seg_effect(o.key, d, index as u64);
            assert forall|i: int| self.depth <= i < 20 implies
                self.seg(i) == self.spec_corner() by {
                assert(self.seg(i) == o.seg(i));
                assert(o.seg(i) == o.spec_corner());
            }
            assert(self.path() =~= o.path().push(index as u64));
        }
    }

    /// Removes and returns the deepest segment, restoring the canonical
    /// corner fill in its place.
    pub fn pop(&mut self) -> (r: u8)
        requires
            old(self).wf(),
            old(self).depth > 0,
        ensures
            *final(self) == old(self).spec_pop().0,
            r == old(self).spec_pop().1,
            final(self).wf(),
            final(self).depth == old(self).depth - 1,
            final(self).path() == old(self).path().drop_last(),
            r == old(self).path().last(),
            r < 8,
            final(self).spec_corner() == old(self).spec_corner(),
    {
        let ghost o = *self;
        let off: u64 = 3 * ((self.depth - 1) as u64);
        let index = get3(self.key, off);
        let c = get3(self.key, 61);
        self.key = set3(self.key, off, c);
        self.depth = self.depth - 1;
        proof {
            let d = o.depth - 1;
            assert(off == (3 * d) as u64);
            crate::packed::lemma_set_seg_effect(o.key, d, c);
            assert forall|i: int| self.depth <= i < 20 implies
                self.seg(i) == self.spec_corner() by {
                if i != d {
                    assert(self.seg(i) == o.seg(i));
                    assert(o.seg(i) == o.spec_corner());
                }
            }
            assert(self.path() =~= o.path().drop_last());
        }
        index as u8
    }

    /// Cell index at depth `depth`; for levels past the key's depth this
    /// is the corner fill, and depth 0 reads as index 0.
    pub fn get_index(&self, depth: u8) -> (r: u8)
        requires
            self.wf(),
            depth <= 20,
        ensures
            depth == 0 ==> r == 0,
            1 <= depth <= self.depth ==> r == self.path()[depth - 1],
            depth > self.depth ==> r == self.spec_corner(),
            r < 8,
    {
        if depth == 0 {
            return 0;
        }
        let off: u64 = 3 * ((depth - 1) as u64);
        let r = get3(self.key, off);
        proof {
            assert(off == (3 * (depth - 1)) as u64);
            assert(r == self.seg(depth - 1));
        }
        r as u8
    }

    /// Overwrite the cell index at depth `depth` (1-based).
    pub fn set_index(&mut self, depth: u8, index: u8)
        requires
            old(self).wf(),
            1 <= depth <= old(self).depth,
            index < 8,
        ensures
            final(self).wf(),
            final(self).depth == old(self).depth,
            final(self).path() == old(self).path().update(depth - 1, index as u64),
            final(self).spec_corner() == old(self).spec_corner(),
    {
        let ghost o = *self;
        let off: u64 = 3 * ((depth - 1) as u64);
        self.key = set3(self.key, off, index as u64);
        proof {
            let d = depth - 1;
            assert(off == (3 * d) as u64);
            crate::packed::lemma_set_seg_effect(o.key, d, index as u64);
            assert forall|i: int| self.depth <= i < 20 implies
                self.seg(i) == self.spec_corner() by {
                assert(self.seg(i) == o.seg(i));
                assert(o.seg(i) == o.spec_corner());
            }
            assert(self.path() =~= o.path().update(depth - 1, index as u64));
        }
    }

    /// Truncates or extends the number of valid segments. Truncated
    /// segments are reset to the corner fill; on extension the segments
    /// gaining validity already hold the corner index.
    pub fn set_depth(&mut self, new_depth: u8)
        requires
            old(self).wf(),
            new_depth <= 20,
        ensures
            final(self).wf(),
            final(self).depth == new_depth,
            final(self).spec_corner() == old(self).spec_corner(),
            final(self).path().len() == new_depth,
            forall|i: int| 0 <= i < new_depth ==> final(self).path()[i]
                == (if i < old(self).depth { old(self).path()[i] } else { old(self).spec_corner() }),
    {
        let ghost o = *self;
        if new_depth < self.depth {
            let c = get3(self.key, 61);
            let mut i: u8 = new_depth;
            while i < self.depth
                invariant
                    o.wf(),
                    new_depth <= i <= o.depth,
                    self.depth == o.depth,
                    c == o.spec_corner(),
                    c < 8,
                    self.spec_corner() == o.spec_corner(),
                    self.funny() == 0,
                    forall|j: int| 0 <= j < new_depth ==> self.seg(j) == o.seg(j),
                    forall|j: int| new_depth <= j < i ==> self.seg(j) == o.spec_corner(),
                    forall|j: int| i <= j < 20 ==> self.seg(j) == o.seg(j),
                decreases o.depth - i,
            {
                let ghost prev = *self;
                let off: u64 = 3 * (i as u64);
                self.key = set3(self.key, off, c);
                i = i + 1;
                proof {
                    let d = i - 1;
                    assert(off == (3 * d) as u64);
                    crate::packed::lemma_set_seg_effect(prev.key, d, c);
                    assert forall|j: int| new_depth <= j < i implies
                        self.seg(j) == o.spec_corner() by {
                        if j == d {
                            assert(self.seg(j) == c);
                        } else {
                            assert(self.seg(j) == prev.seg(j));
                        }
                    }
                    assert forall|j: int| 0 <= j < new_depth implies
                        self.seg(j) == o.seg(j) by {
                        assert(self.seg(j) == prev.seg(j));
                    }
                    assert forall|j: int| i <= j < 20 implies
                        self.seg(j) == o.seg(j) by {
                        assert(self.seg(j) == prev.seg(j));
                    }
                }
            }
            self.depth = new_depth;
            proof {
                let exitk = TreeKey { key: self.key, depth: o.depth };
                assert forall|j: int| self.depth <= j < 20 implies
                    self.seg(j) == self.spec_corner() by {
                    assert(self.seg(j) == exitk.seg(j));
                    if j >= o.depth {
                        assert(exitk.seg(j) == o.seg(j));
                        assert(o.seg(j) == o.spec_corner());
                    } else {
                        assert(exitk.seg(j) == o.spec_corner());
                    }
                }
                assert forall|j: int| 0 <= j < new_depth implies self.path()[j]
                    == (if j < o.depth { o.path()[j] } else { o.spec_corner() }) by {
                    assert(self.seg(j) == exitk.seg(j));
                    assert(exitk.seg(j) == o.seg(j));
                }
            }
        } else {
            self.depth = new_depth;
            proof {
                assert forall|j: int| self.depth <= j < 20 implies
                    self.seg(j) == self.spec_corner() by {
                    assert(o.seg(j) == o.spec_corner());
                }
                assert forall|j: int| 0 <= j < new_depth implies self.path()[j]
                    == (if j < o.depth { o.path()[j] } else { o.spec_corner() }) by {
                    if j >= o.depth {
                        assert(o.seg(j) == o.spec_corner());
                    }
                }
            }
        }
    }

    /// Set the corner index, refreshing the canonical fill of every
    /// segment past the key's depth.
    pub fn set_corner(&mut self, corner_idx: u8)
        requires
            old(self).wf(),
            corner_idx < 8,
        ensures
            *final(self) == old(self).spec_with_corner(corner_idx as u64),
            final(self).wf(),
            final(self).depth == old(self).depth,
            final(self).path() == old(self).path(),
            final(self).spec_corner() == corner_idx as u64,
    {
        let ghost o = *self;
        let c = corner_idx as u64;
        let mut i: u8 = self.depth;
        while i < 20
            invariant
                o.wf(),
                c == corner_idx as u64,
                c < 8,
                o.depth <= i <= 20,
                self.depth == o.depth,
                self.spec_corner() == o.spec_corner(),
                self.funny() == 0,
                fill_key(o.key, o.depth as int, c) == fill_key(self.key, i as int, c),
                forall|j: int| 0 <= j < o.depth ==> self.seg(j) == o.seg(j),
                forall|j: int| o.depth <= j < i ==> self.seg(j) == c,
            decreases 20 - i,
        {
            let ghost prev = *self;
            let off: u64 = 3 * (i as u64);
            self.key = set3(self.key, off, c);
            i = i + 1;
            proof {
                let d = i - 1;
                assert(off == (3 * d) as u64);
                crate::packed::lemma_set_seg_effect(prev.key, d, c);
                assert forall|j: int| o.depth <= j < i implies self.seg(j) == c by {
                    if j == d {
                        assert(self.seg(j) == c);
                    } else {
                        assert(self.seg(j) == prev.seg(j));
                    }
                }
                assert forall|j: int| 0 <= j < o.depth implies
                    self.seg(j) == o.seg(j) by {
                    assert(self.seg(j) == prev.seg(j));
                }
            }
        }
        let ghost before = *self;
        self.key = set3(self.key, 61, c);
        proof {
            crate::packed::lemma_set_corner_effect(before.key, c);
            assert forall|j: int| 0 <= j < 20 implies self.seg(j) == before.seg(j) by {}
            assert forall|j: int| self.depth <= j < 20 implies
                self.seg(j) == self.spec_corner() by {
                assert(before.seg(j) == c);
            }
            assert(self.path() =~= o.path());
        }
    }

    /// The 8 keys addressing this cell's corners, in Z-order.
    pub fn corner_keys(&self) -> (r: [TreeKey; 8])
        requires self.wf(),
        ensures
            forall|i: int| 0 <= i < 8 ==> #[trigger] r[i] == self.spec_with_corner(i as u64),
            forall|i: int| 0 <= i < 8 ==> (#[trigger] r[i]).wf() && r[i].path() == self.path()
                && r[i].spec_corner() == i && r[i].depth == self.depth,
    {
        let mut k0 = *self;
        let mut k1 = *self;
        let mut k2 = *self;
        let mut k3 = *self;
        let mut k4 = *self;
        let mut k5 = *self;
        let mut k6 = *self;
        let mut k7 = *self;
        k0.set_corner(0);
        k1.set_corner(1);
        k2.set_corner(2);
        k3.set_corner(3);
        k4.set_corner(4);
        k5.set_corner(5);
        k6.set_corner(6);
        k7.set_corner(7);
        [k0, k1, k2, k3, k4, k5, k6, k7]
    }

    /// The AABB of the cell the key addresses, inside the unit cube.
    pub fn cell_aabb(&self) -> (r: AABB)
        requires self.wf(),
        ensures
            r == aabb_of_path(self.path()),
            r.wf(),
    {
        let mut aabb = AABB::unit_cube();
        proof {
            assert(self.path().take(0) =~= Seq::<u64>::empty());
        }
        let mut i: u8 = 0;
        while i < self.depth
            invariant
                self.wf(),
                0 <= i <= self.depth,
                aabb == aabb_of_path(self.path().take(i as int)),
                aabb.wf(),
            decreases self.depth - i,
        {
            let index = get3(self.key, 3 * (i as u64));
            aabb = aabb.octree_child(index as u8);
            proof {
                let t = self.path().take(i + 1);
                assert(t.drop_last() =~= self.path().take(i as int));
                assert(t.last() == self.seg(i as int));
            }
            i = i + 1;
        }
        proof {
            assert(self.path().take(self.depth as int) =~= self.path());
        }
        aabb
    }
}

impl Default for TreeKey {
    fn default() -> (r: TreeKey)
        ensures
            r.wf(),
            r.key == 0,
            r.depth == 0,
    {
        TreeKey::root()
    }
}

/// The AABB reached from the unit cube by descending through `path`.
pub open spec fn aabb_of_path(path: Seq<u64>) -> AABB
    decreases path.len(),
{
    if path.len() == 0 {
        AABB::unit_cube_spec()
    } else {
        aabb_of_path(path.drop_last()).octree_child_spec(path.last() as int)
    }
}

/// Key round-trip: `pop` is the exact inverse of `push`.
///
/// Law: pushing an index and popping returns that index and restores the
/// key bit-for-bit.
pub proof fn lemma_push_pop(k: TreeKey, index: u8)
    requires
        k.wf(),
        k.depth < 20,
        index < 8,
    ensures
        k.spec_push(index).spec_pop() == (k, index as u64),
{
    let off = (3 * k.depth) as u64;
    assert(k.seg(k.depth as int) == k.spec_corner());
    lemma_set3_same(k.key, off, index as u64);
    lemma_set3_other(k.key, off, index as u64, 61);
    lemma_set3_twice(k.key, off, index as u64, k.spec_corner());
    lemma_set3_noop(k.key, off, k.spec_corner());
}

/// Corner-key consistency: a cell's key for corner `c` is bit-identical
/// to the key its child toward octant `c` builds for the same corner.
///
/// Law: shared corners are addressable by equal packed keys across
/// depths, thanks to the canonical corner fill. (Two sibling cells that
/// share a corner give it different corner indices, so their corner keys
/// differ; the identity runs along the descendant chain toward `c`.)
pub proof fn lemma_corner_key_shared(k: TreeKey, c: u8)
    requires
        k.wf(),
        k.depth < 20,
        c < 8,
    ensures
        k.spec_push(c).spec_with_corner(c as u64).key == k.spec_with_corner(c as u64).key,
{
    assert(fill_key(k.key, k.depth as int, c as u64)
        == fill_key(set3_spec(k.key, (3 * k.depth) as u64, c as u64), k.depth + 1, c as u64));
}

} // verus!

//! 64-bit index that describes the exact location of an octant in an
//! octree of maximum depth 19 (with an implied root at depth 0).
//!
//! Bit layout:
//! - bits 0-2, 3-5, ..., 54-56: cell indices, one 3-bit octant index per
//!   depth level; every index past the key's depth must be 0;
//! - bits 57-58: unused, always 0;
//! - bits 59-63: the depth, the number of valid cell indices.

use vstd::prelude::*;
use crate::aabb::AABB;
use crate::packed::{get3, set3, set_depth5, get3_spec, set3_spec, set_depth5_spec};
use crate::packed::{lemma_set_seg_effect, lemma_set3_hi, lemma_set_depth5,
    lemma_set_depth5_twice, lemma_set_depth5_noop, lemma_set3_depth5_commute, lemma_set3_noop,
    lemma_set3_twice};
use crate::tree_key::aabb_of_path;

verus! {

broadcast use crate::packed::lemma_get3_bounded;

/// Greatest depth an `OctantKey` can address.
pub const OCTANT_KEY_MAX_DEPTH: u8 = 19;

#[derive(Default, Debug, Clone, Copy, PartialEq, Eq, PartialOrd, Ord, Hash, Structural)]
pub struct OctantKey(pub u64);

impl OctantKey {
    pub open spec fn spec_depth(self) -> u64 {
        self.0 >> 59
    }

    /// Cell index at depth level `i + 1` (0-based segment `i`).
    pub open spec fn seg(self, i: int) -> u64 {
        get3_spec(self.0, (3 * i) as u64)
    }

    pub open spec fn funny(self) -> u64 {
        (self.0 >> 57) & 3
    }

    /// Invariant: bounded depth, zero unused bits, and zeroed segments
    /// past the depth.
    pub open spec fn wf(self) -> bool {
        &&& self.spec_depth() <= 19
        &&& self.funny() == 0
        &&& forall|i: int| self.spec_depth() <= i < 19 ==> self.seg(i) == 0
    }

    /// The sequence of valid cell indices.
    pub open spec fn path(self) -> Seq<u64> {
        Seq::new(self.spec_depth() as nat, |i: int| self.seg(i))
    }

    pub open spec fn spec_push(self, index: u8) -> OctantKey {
        OctantKey(set_depth5_spec(
            set3_spec(self.0, (3 * self.spec_depth()) as u64, index as u64),
            (self.spec_depth() + 1) as u64,
        ))
    }

    pub open spec fn spec_pop(self) -> (OctantKey, u64) {
        (
            OctantKey(set_depth5_spec(
                set3_spec(self.0, (3 * (self.spec_depth() - 1)) as u64, 0),
                (self.spec_depth() - 1) as u64,
            )),
            self.seg(self.spec_depth() - 1),
        )
    }

    /// The key of the root octant.
    pub fn root() -> (r: OctantKey)
        ensures
            r.wf(),
            r.0 == 0,
            r.spec_depth() == 0,
            r.path() == Seq::<u64>::empty(),
    {
        let r = OctantKey(0);
        proof {
            assert(forall|off: u64| (0u64 >> off) & 7 == 0) by (bit_vector);
            assert(0u64 >> 59 == 0 && (0u64 >> 57) & 3 == 0) by (bit_vector);
            assert(r.path() =~= Seq::<u64>::empty());
        }
        r
    }

    /// The raw packed bits of the key.
    pub fn raw(&self) -> (r: u64)
        ensures r == self.0,
    {
        self.0
    }

    pub fn depth(&self) -> (r: u8)
        requires self.wf(),
        ensures r == self.spec_depth(),
    {
        proof {
            let k = self.0;
            assert(k >> 59 < 32) by (bit_vector);
        }
        (self.0 >> 59) as u8
    }

    /// Truncates or extends the number of valid segments; truncated
    /// segments are zeroed so the key stays canonical.
    pub fn set_depth(&mut self, new_depth: u8)
        requires
            old(self).wf(),
            new_depth <= 19,
        ensures
            final(self).wf(),
            final(self).spec_depth() == new_depth,
            final(self).path().len() == new_depth,
            forall|i: int| 0 <= i < new_depth ==> final(self).path()[i]
                == (if i < old(self).spec_depth() { old(self).path()[i] } else { 0 }),
    {
        let ghost o = *self;
        let old_depth = self.depth();
        if new_depth < old_depth {
            let mut i: u8 = new_depth;
            while i < old_depth
                invariant
                    o.wf(),
                    old_depth == o.spec_depth(),
                    new_depth <= i <= old_depth,
                    self.spec_depth() == o.spec_depth(),
                    self.funny() == 0,
                    forall|j: int| 0 <= j < new_depth ==> self.seg(j) == o.seg(j),
                    forall|j: int| new_depth <= j < i ==> self.seg(j) == 0,
                    forall|j: int| i <= j < 19 ==> self.seg(j) == o.seg(j),
                decreases old_depth - i,
            {
                let ghost prev = *self;
                let off: u64 = 3 * (i as u64);
                self.0 = set3(self.0, off, 0);
                i = i + 1;
                proof {
                    let d = i - 1;
                    assert(off == (3 * d) as u64);
                    lemma_set_seg_effect(prev.0, d, 0);
                    lemma_set3_hi(prev.0, off, 0);
                    assert forall|j: int| new_depth <= j < i implies self.seg(j) == 0 by {
                        if j == d {
                            assert(self.seg(j) == 0);
                        } else {
                            assert(self.seg(j) == prev.seg(j));
                        }
                    }
                    assert forall|j: int| 0 <= j < new_depth implies
                        self.seg(j) == o.seg(j) by {
                        assert(self.seg(j) == prev.seg(j));
                    }
                    assert forall|j: int| i <= j < 19 implies
                        self.seg(j) == o.seg(j) by {
                        assert(self.seg(j) == prev.seg(j));
                    }
                }
            }
        }
        let ghost mid = *self;
        self.0 = set_depth5(self.0, new_depth as u64);
        proof {
            lemma_set_depth5(mid.0, new_depth as u64);
            assert forall|j: int| 0 <= j < 19 implies self.seg(j) == mid.seg(j) by {
                assert((3 * j) as u64 + 3 <= 57);
            }
            assert forall|j: int| self.spec_depth() <= j < 19 implies self.seg(j) == 0 by {
                if new_depth < o.spec_depth() {
                    if j >= o.spec_depth() {
                        assert(mid.seg(j) == o.seg(j));
                        assert(o.seg(j) == 0);
                    } else if j >= new_depth {
                        assert(mid.seg(j) == 0);
                    }
                } else {
                    assert(mid.seg(j) == o.seg(j));
                    assert(o.seg(j) == 0);
                }
            }
            assert forall|i: int| 0 <= i < new_depth implies self.path()[i]
                == (if i < o.spec_depth() { o.path()[i] } else { 0 }) by {
                assert(self.seg(i) == mid.seg(i));
                if new_depth < o.spec_depth() {
                    assert(mid.seg(i) == o.seg(i));
                } else if i >= o.spec_depth() {
                    assert(mid.seg(i) == o.seg(i));
                    assert(o.seg(i) == 0);
                } else {
                    assert(mid.seg(i) == o.seg(i));
                }
            }
        }
    }

    /// The valid cell indices, shallowest first.
    pub fn indices(&self) -> (r: Vec<u8>)
        requires self.wf(),
        ensures
            r@.len() == self.spec_depth(),
            forall|i: int| 0 <= i < r@.len() ==> r@[i] == self.path()[i],
    {
        let d = self.depth();
        let mut r: Vec<u8> = Vec::new();
        let mut i: u8 = 0;
        while i < d
            invariant
                self.wf(),
                d == self.spec_depth(),
                0 <= i <= d,
                r@.len() == i,
                forall|j: int| 0 <= j < i ==> r@[j] == self.path()[j],
            decreases d - i,
        {
            let off: u64 = 3 * (i as u64);
            let v = get3(self.0, off);
            r.push(v as u8);
            proof {
                assert(off == (3 * (i as int)) as u64);
            }
            i = i + 1;
        }
        r
    }

    /// Cell index at depth `depth` (1-based, within the valid depth).
    pub fn get_index(&self, depth: u8) -> (r: u8)
        requires
            self.wf(),
            1 <= depth <= self.spec_depth(),
        ensures
            r == self.path()[depth - 1],
            r < 8,
    {
        let off: u64 = 3 * ((depth - 1) as u64);
        let r = get3(self.0, off);
        proof {
            assert(off == (3 * (depth - 1)) as u64);
            assert(r == self.seg(depth - 1));
        }
        r as u8
    }

    /// Overwrite the cell index at depth `depth` (1-based).
    pub fn set_index(&mut self, depth: u8, index: u8)
        requires
            old(self).wf(),
            1 <= depth <= old(self).spec_depth(),
            index < 8,
        ensures
            final(self).wf(),
            final(self).spec_depth() == old(self).spec_depth(),
            final(self).path() == old(self).path().update(depth - 1, index as u64),
    {
        let ghost o = *self;
        let off: u64 = 3 * ((depth - 1) as u64);
        self.0 = set3(self.0, off, index as u64);
        proof {
            let d = depth - 1;
            assert(off == (3 * d) as u64);
            lemma_set_seg_effect(o.0, d, index as u64);
            lemma_set3_hi(o.0, off, index as u64);
            assert forall|i: int| self.spec_depth() <= i < 19 implies self.seg(i) == 0 by {
                assert(self.seg(i) == o.seg(i));
            }
            assert(self.path() =~= o.path().update(depth - 1, index as u64));
        }
    }

    pub fn at_max_depth(&self) -> (r: bool)
        requires self.wf(),
        ensures r == (self.spec_depth() == 19),
    {
        self.depth() == OCTANT_KEY_MAX_DEPTH
    }

    /// Appends an octant index as the new deepest segment.
    pub fn push(&mut self, index: u8)
        requires
            old(self).wf(),
            old(self).spec_depth() < 19,
            index < 8,
        ensures
            *final(self) == old(self).spec_push(index),
            final(self).wf(),
            final(self).spec_depth() == old(self).spec_depth() + 1,
            final(self).path() == old(self).path().push(index as u64),
    {
        let ghost o = *self;
        let d = self.depth();
        let off: u64 = 3 * (d as u64);
        self.0 = set3(self.0, off, index as u64);
        self.0 = set_depth5(self.0, d as u64 + 1);
        proof {
            let ghost k1 = set3_spec(o.0, off, index as u64);
            assert(off == (3 * (d as int)) as u64);
            lemma_set_seg_effect(o.0, d as int, index as u64);
            lemma_set3_hi(o.0, off, index as u64);
            lemma_set_depth5(k1, (d + 1) as u64);
            assert forall|j: int| 0 <= j < 19 implies
                self.seg(j) == OctantKey(k1).seg(j) by {
                assert((3 * j) as u64 + 3 <= 57);
            }
            assert forall|j: int| self.spec_depth() <= j < 19 implies self.seg(j) == 0 by {
                assert(OctantKey(k1).seg(j) == o.seg(j));
                assert(o.seg(j) == 0);
            }
            assert(self.path() =~= o.path().push(index as u64));
        }
    }

    /// The key of child `index` of this octant.
    pub fn child(&self, index: u8) -> (r: OctantKey)
        requires
            self.wf(),
            self.spec_depth() < 19,
            index < 8,
        ensures
            r == self.spec_push(index),
            r.wf(),
            r.spec_depth() == self.spec_depth() + 1,
            r.path() == self.path().push(index as u64),
    {
        let mut r = *self;
        r.push(index);
        r
    }

    /// The 8 child keys, in Z-order.
    pub fn children(&self) -> (r: [OctantKey; 8])
        requires
            self.wf(),
            self.spec_depth() < 19,
        ensures
            forall|i: int| 0 <= i < 8 ==> #[trigger] r[i] == self.spec_push(i as u8),
            forall|i: int| 0 <= i < 8 ==> (#[trigger] r[i]).wf()
                && r[i].spec_depth() == self.spec_depth() + 1
                && r[i].path() == self.path().push(i as u64),
    {
        let r = [
            self.child(0),
            self.child(1),
            self.child(2),
            self.child(3),
            self.child(4),
            self.child(5),
            self.child(6),
            self.child(7),
        ];
        assert forall|i: int| 0 <= i < 8 implies #[trigger] r[i] == self.spec_push(i as u8)
            && r[i].wf() && r[i].spec_depth() == self.spec_depth() + 1
            && r[i].path() == self.path().push(i as u64) by {
        }
        r
    }

    /// Removes and returns the deepest segment, zeroing it.
    pub fn pop(&mut self) -> (r: u8)
        requires
            old(self).wf(),
            old(self).spec_depth() > 0,
        ensures
            *final(self) == old(self).spec_pop().0,
            r == old(self).spec_pop().1,
            final(self).wf(),
            final(self).spec_depth() == old(self).spec_depth() - 1,
            final(self).path() == old(self).path().drop_last(),
            r == old(self).path().last(),
            r < 8,
    {
        let ghost o = *self;
        let d = self.depth();
        let off: u64 = 3 * ((d - 1) as u64);
        let index = get3(self.0, off);
        self.0 = set3(self.0, off, 0);
        self.0 = set_depth5(self.0, d as u64 - 1);
        proof {
            let ghost k1 = set3_spec(o.0, off, 0);
            assert(off == (3 * (d - 1)) as u64);
            lemma_set_seg_effect(o.0, d as int - 1, 0);
            lemma_set3_hi(o.0, off, 0);
            lemma_set_depth5(k1, (d - 1) as u64);
            assert forall|j: int| 0 <= j < 19 implies
                self.seg(j) == OctantKey(k1).seg(j) by {
                assert((3 * j) as u64 + 3 <= 57);
            }
            assert forall|j: int| self.spec_depth() <= j < 19 implies self.seg(j) == 0 by {
                if j != d - 1 {
                    assert(OctantKey(k1).seg(j) == o.seg(j));
                    assert(o.seg(j) == 0);
                } else {
                    assert(OctantKey(k1).seg(j) == 0);
                }
            }
            assert(self.path() =~= o.path().drop_last());
        }
        index as u8
    }

    /// The key of this octant's parent.
    pub fn parent(&self) -> (r: OctantKey)
        requires
            self.wf(),
            self.spec_depth() > 0,
        ensures
            r == self.spec_pop().0,
            r.wf(),
            r.spec_depth() == self.spec_depth() - 1,
            r.path() == self.path().drop_last(),
    {
        let mut r = *self;
        r.pop();
        r
    }

    /// Whether `child` addresses a strict descendant of this octant.
    pub open spec fn contains_spec(self, child: OctantKey) -> bool {
        &&& self.spec_depth() < child.spec_depth()
        &&& forall|i: int| 0 <= i < self.spec_depth() ==> self.seg(i) == child.seg(i)
    }

    /// Returns true if `child` is a strict descendant of this octant.
    pub fn contains(&self, child: OctantKey) -> (r: bool)
        requires
            self.wf(),
            child.wf(),
        ensures r == self.contains_spec(child),
    {
        let depth = self.depth();
        let child_depth = child.depth();
        if depth >= child_depth {
            return false;
        }
        let mut i: u8 = 0;
        while i < depth
            invariant
                self.wf(),
                child.wf(),
                depth == self.spec_depth(),
                0 <= i <= depth,
                forall|j: int| 0 <= j < i ==> self.seg(j) == child.seg(j),
            decreases depth - i,
        {
            let off: u64 = 3 * (i as u64);
            proof {
                assert(off == (3 * (i as int)) as u64);
            }
            if get3(self.0, off) != get3(child.0, off) {
                proof {
                    assert(self.seg(i as int) != child.seg(i as int));
                }
                return false;
            }
            proof {
                assert(self.seg(i as int) == child.seg(i as int));
            }
            i = i + 1;
        }
        true
    }

    /// The AABB of the octant this key addresses, inside the unit cube.
    pub fn aabb(&self) -> (r: AABB)
        requires self.wf(),
        ensures
            r == aabb_of_path(self.path()),
            r.wf(),
    {
        let mut aabb = AABB::unit_cube();
        proof {
            assert(self.path().take(0) =~= Seq::<u64>::empty());
        }
        let d = self.depth();
        let mut i: u8 = 0;
        while i < d
            invariant
                self.wf(),
                d == self.spec_depth(),
                0 <= i <= d,
                aabb == aabb_of_path(self.path().take(i as int)),
                aabb.wf(),
            decreases d - i,
        {
            let off: u64 = 3 * (i as u64);
            let index = get3(self.0, off);
            aabb = aabb.octree_child(index as u8);
            proof {
                assert(off == (3 * (i as int)) as u64);
                let t = self.path().take(i + 1);
                assert(t.drop_last() =~= self.path().take(i as int));
                assert(t.last() == self.seg(i as int));
            }
            i = i + 1;
        }
        proof {
            assert(self.path().take(self.spec_depth() as int) =~= self.path());
        }
        aabb
    }

    /// The edge length of the octant this key addresses, in fixed-point
    /// units of the unit cube.
    pub fn scale(&self) -> (r: i64)
        requires self.wf(),
        ensures
            r == crate::fixed::UNIT as int / vstd::arithmetic::power2::pow2(self.spec_depth() as nat) as int,
    {
        let d = self.depth();
        let mut s: i64 = crate::fixed::UNIT;
        let mut i: u8 = 0;
        proof {
            vstd::arithmetic::power2::lemma2_to64();
        }
        while i < d
            invariant
                0 <= i <= d,
                d <= 19,
                s == crate::fixed::UNIT as int / vstd::arithmetic::power2::pow2(i as nat) as int,
                1 <= s <= crate::fixed::UNIT,
            decreases d - i,
        {
            proof {
                let p = vstd::arithmetic::power2::pow2(i as nat) as int;
                vstd::arithmetic::power2::lemma_pow2_pos(i as nat);
                vstd::arithmetic::power2::lemma_pow2_adds(i as nat, 1);
                vstd::arithmetic::power2::lemma2_to64();
                vstd::arithmetic::div_mod::lemma_div_denominator(
                    crate::fixed::UNIT as int, p, 2);
                vstd::arithmetic::power2::lemma_pow2_pos((i + 1) as nat);
                assert(vstd::arithmetic::power2::pow2((i + 1) as nat) == p * 2);
                assert(crate::fixed::UNIT as int / (p * 2)
                    >= 1) by {
                    vstd::arithmetic::power2::lemma_pow2_strictly_increases((i + 1) as nat, 21);
                    vstd::arithmetic::div_mod::lemma_div_non_zero(
                        crate::fixed::UNIT as int, p * 2);
                }
            }
            s = s / 2;
            i = i + 1;
        }
        s
    }
}

/// An octant strictly contains each of its children.
pub proof fn lemma_contains_own_child(k: OctantKey, i: u8)
    requires
        k.wf(),
        k.spec_depth() < 19,
        i < 8,
    ensures
        k.contains_spec(k.spec_push(i)),
        k.spec_push(i).wf(),
        k.spec_push(i).spec_depth() == k.spec_depth() + 1,
{
    let c = k.spec_push(i);
    let k1 = set3_spec(k.0, (3 * k.spec_depth()) as u64, i as u64);
    lemma_set_seg_effect(k.0, k.spec_depth() as int, i as u64);
    lemma_set3_hi(k.0, (3 * k.spec_depth()) as u64, i as u64);
    lemma_set_depth5(k1, (k.spec_depth() + 1) as u64);
    assert forall|j: int| 0 <= j < 19 implies c.seg(j) == OctantKey(k1).seg(j) by {
        assert((3 * j) as u64 + 3 <= 57);
    }
    assert forall|j: int| c.spec_depth() <= j < 19 implies c.seg(j) == 0 by {
        assert(OctantKey(k1).seg(j) == k.seg(j));
        assert(k.seg(j) == 0);
    }
    assert forall|j: int| 0 <= j < k.spec_depth() implies k.seg(j) == c.seg(j) by {
        assert(OctantKey(k1).seg(j) == k.seg(j));
    }
}

/// Containment of octants is transitive.
pub proof fn lemma_contains_trans(a: OctantKey, b: OctantKey, c: OctantKey)
    requires
        a.contains_spec(b),
        b.contains_spec(c),
    ensures a.contains_spec(c),
{
    assert forall|i: int| 0 <= i < a.spec_depth() implies a.seg(i) == c.seg(i) by {
        assert(a.seg(i) == b.seg(i));
        assert(b.seg(i) == c.seg(i));
    }
}

/// Containment implies a strictly greater depth, so siblings and
/// ancestors are never contained.
pub proof fn lemma_contains_deeper(a: OctantKey, b: OctantKey)
    requires a.contains_spec(b),
    ensures a.spec_depth() < b.spec_depth(),
{
}

/// Re-pushing the popped index restores the key bit-for-bit.
pub proof fn lemma_octant_pop_push(k: OctantKey)
    requires
        k.wf(),
        0 < k.spec_depth() <= 19,
    ensures
        ({
            let (p, index) = k.spec_pop();
            &&& index < 8
            &&& p.wf()
            &&& p.spec_depth() == k.spec_depth() - 1
            &&& p.spec_push(index as u8) == k
        }),
{
    let d = k.spec_depth();
    let off = (3 * (d - 1)) as u64;
    let index = k.seg(d - 1);
    let k1 = set3_spec(k.0, off, 0);
    let (p, _) = k.spec_pop();
    lemma_set_seg_effect(k.0, d - 1, 0);
    lemma_set3_hi(k.0, off, 0);
    lemma_set_depth5(k1, (d - 1) as u64);
    // p is well formed: segments at or past d-1 are zero.
    assert forall|j: int| p.spec_depth() <= j < 19 implies p.seg(j) == 0 by {
        assert((3 * j) as u64 + 3 <= 57);
        assert(p.seg(j) == OctantKey(k1).seg(j));
        if j == d - 1 {
            assert(OctantKey(k1).seg(j) == 0);
        } else {
            assert(OctantKey(k1).seg(j) == k.seg(j));
        }
    }
    // Pushing the index back: the segment write cancels, the depth
    // restores.
    lemma_set3_depth5_commute(k1, off, index, (d - 1) as u64);
    lemma_set3_twice(k.0, off, 0, index);
    lemma_set3_noop(k.0, off, index);
    lemma_set_depth5_twice(set3_spec(k1, off, index), (d - 1) as u64, d as u64);
    lemma_set_depth5_noop(k.0, d as u64);
}

/// Key round-trip: `pop` is the exact inverse of `push`.
///
/// Law: pushing an index and popping returns that index and restores the
/// key bit-for-bit.
pub proof fn lemma_octant_push_pop(k: OctantKey, index: u8)
    requires
        k.wf(),
        k.spec_depth() < 19,
        index < 8,
    ensures
        k.spec_push(index).spec_pop() == (k, index as u64),
{
    let d = k.spec_depth();
    let off = (3 * d) as u64;
    let k1 = set3_spec(k.0, off, index as u64);
    let p = k.spec_push(index);
    lemma_set_seg_effect(k.0, d as int, index as u64);
    lemma_set3_hi(k.0, off, index as u64);
    lemma_set_depth5(k1, (d + 1) as u64);
    assert(p.spec_depth() == d + 1);
    assert(p.seg(d as int) == index);
    // Popping p: zero the segment, then restore the depth field.
    lemma_set3_depth5_commute(k1, off, 0, (d + 1) as u64);
    lemma_set3_twice(k.0, off, index as u64, 0);
    assert(k.seg(d as int) == 0);
    lemma_set3_noop(k.0, off, 0);
    lemma_set_depth5_twice(set3_spec(k1, off, 0), (d + 1) as u64, d as u64);
    lemma_set_depth5_noop(k.0, d as u64);
}

} // verus!

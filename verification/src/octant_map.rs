//! The flat-map storage strategy: one associative container owns every
//! cell's corner densities, keyed by the packed octant key, and a
//! parallel leaf set tracks which keys are currently leaves.
//!
//! The sculpting pass follows the same state machine as the pointer
//! tree's; here each operation's effect is stated exactly on the
//! key-to-densities map and the leaf set, and the pass guarantees that
//! it touches only the subtree below the octant it was aimed at.

use vstd::prelude::*;
use std::collections::{HashMap, HashSet};
use crate::aabb::AABB;
use crate::action::Action;
use crate::fixed::{UNIT, in_unit_range};
use crate::marching_cubes::{MarchTables, Triangle};
use crate::naive_octree::{NaiveOctreeCell, CellModel, diff_signs_spec, new_values_spec,
    should_subdivide_spec, apply_model, apply_children_model, clip_spec, collapse_spec,
    leaf_child_model, mesh_model, march_leaf, next_depth};
use crate::octant_key::{OctantKey, OCTANT_KEY_MAX_DEPTH};
use crate::tool::ToolFunc;
use crate::tree_key::aabb_of_path;
use crate::utils::{grid_base, grid_point, subdivide_cell};

verus! {

broadcast use vstd::std_specs::hash::group_hash_axioms,
    crate::packed::lemma_get3_bounded;

/// The raw key of child `i` of the octant with raw key `k`.
pub open spec fn child_raw(k: u64, i: int) -> u64 {
    OctantKey(k).spec_push(i as u8).0
}

/// The raw key of the parent of the octant with raw key `k`.
pub open spec fn parent_raw(k: u64) -> u64 {
    OctantKey(k).spec_pop().0.0
}

/// The densities of a cell as mathematical integers.
pub open spec fn cell_values(vals: [i64; 8]) -> Seq<int> {
    Seq::new(8, |i: int| vals[i] as int)
}

pub struct OctantMap {
    pub octants: HashMap<u64, [i64; 8]>,
    pub leaves: HashSet<u64>,
}

impl OctantMap {
    /// The cell store alone is well formed: the root is present, every
    /// key is a canonical octant key with clamped densities, children
    /// exist in full sibling groups, and every non-root cell has its
    /// parent.
    pub open spec fn cells_ok(self) -> bool {
        &&& self.octants@.contains_key(0)
        &&& forall|k: u64| #[trigger] self.octants@.contains_key(k) ==> OctantKey(k).wf()
        &&& forall|k: u64| #[trigger] self.octants@.contains_key(k) ==>
                (forall|i: int| 0 <= i < 8 ==> in_unit_range(#[trigger] self.octants@[k][i] as int))
        &&& forall|k: u64, i: int, j: int|
                #![trigger self.octants@.contains_key(child_raw(k, i)),
                    self.octants@.contains_key(child_raw(k, j))]
                self.octants@.contains_key(child_raw(k, i))
                    && self.octants@.contains_key(k) && OctantKey(k).spec_depth() < 19
                    && 0 <= i < 8 && 0 <= j < 8
                ==> self.octants@.contains_key(child_raw(k, j))
        &&& forall|k: u64|
                #![trigger self.octants@.contains_key(parent_raw(k))]
                self.octants@.contains_key(k) && OctantKey(k).spec_depth() > 0
                ==> self.octants@.contains_key(parent_raw(k))
    }

    /// Invariant: a well-formed cell store, and the leaf set holds
    /// exactly the cells without children.
    pub open spec fn wf(self) -> bool {
        &&& self.cells_ok()
        &&& forall|k: u64| #[trigger] self.leaves@.contains(k) ==> self.octants@.contains_key(k)
        &&& forall|k: u64|
                #![trigger self.leaves@.contains(k)]
                self.octants@.contains_key(k) ==>
                (self.leaves@.contains(k) <==> !(OctantKey(k).spec_depth() < 19
                    && self.octants@.contains_key(child_raw(k, 0))))
    }

    /// A fresh map: a single root leaf at the lowest density.
    pub fn new() -> (r: OctantMap)
        ensures
            r.wf(),
            r.octants@ == Map::<u64, [i64; 8]>::empty().insert(0u64,
                [((0 - UNIT) as i64), ((0 - UNIT) as i64), ((0 - UNIT) as i64),
                 ((0 - UNIT) as i64), ((0 - UNIT) as i64), ((0 - UNIT) as i64),
                 ((0 - UNIT) as i64), ((0 - UNIT) as i64)]),
            r.leaves@ == Set::<u64>::empty().insert(0u64),
    {
        let root_key = OctantKey::root();
        let mut octants: HashMap<u64, [i64; 8]> = HashMap::new();
        let mut leaves: HashSet<u64> = HashSet::new();
        octants.insert(root_key.raw(), [-UNIT, -UNIT, -UNIT, -UNIT, -UNIT, -UNIT, -UNIT, -UNIT]);
        leaves.insert(root_key.raw());
        let r = OctantMap { octants, leaves };
        proof {
            lemma_key_zero_wf();
            let arr = [((0 - UNIT) as i64), ((0 - UNIT) as i64), ((0 - UNIT) as i64),
                ((0 - UNIT) as i64), ((0 - UNIT) as i64), ((0 - UNIT) as i64),
                ((0 - UNIT) as i64), ((0 - UNIT) as i64)];
            assert forall|k: u64| #[trigger] r.octants@.contains_key(k) implies
                OctantKey(k).wf()
                    && (forall|i: int| 0 <= i < 8 ==>
                        in_unit_range(#[trigger] r.octants@[k][i] as int)) by {
                assert(k == 0);
                assert(r.octants@[k] == arr);
                assert forall|i: int| 0 <= i < 8 implies
                    in_unit_range(#[trigger] r.octants@[k][i] as int) by {
                    assert(arr[i] == (0 - UNIT) as i64);
                }
            }
            assert forall|k: u64, i: int, j: int|
                #[trigger] r.octants@.contains_key(child_raw(k, i))
                    && r.octants@.contains_key(k) && OctantKey(k).spec_depth() < 19
                    && 0 <= i < 8 && 0 <= j < 8
                implies r.octants@.contains_key(#[trigger] child_raw(k, j)) by {
                assert(k == 0 && child_raw(k, i) == 0);
                lemma_child_deeper(OctantKey(0), i as u8);
                assert(false);
            }
            assert forall|k: u64| #[trigger] r.octants@.contains_key(k)
                && OctantKey(k).spec_depth() > 0
                implies r.octants@.contains_key(parent_raw(k)) by {
                assert(k == 0);
                assert(false);
            }
            assert forall|k: u64| #[trigger] r.octants@.contains_key(k) implies
                (r.leaves@.contains(k) <==> !(OctantKey(k).spec_depth() < 19
                    && r.octants@.contains_key(child_raw(k, 0)))) by {
                assert(k == 0);
                assert(r.leaves@.contains(0u64));
                lemma_child_deeper(OctantKey(0), 0);
                assert(!r.octants@.contains_key(child_raw(0, 0)));
            }
        }
        r
    }

    /// Whether `cell` is present in the map.
    pub fn contains_cell(&self, cell: OctantKey) -> (r: bool)
        ensures r == self.octants@.contains_key(cell.0),
    {
        self.octants.contains_key(&cell.0)
    }

    /// Whether `cell`'s children are present.
    pub fn has_children(&self, cell: OctantKey) -> (r: bool)
        requires
            cell.wf(),
            cell.spec_depth() < 19,
        ensures r == self.octants@.contains_key(child_raw(cell.0, 0)),
    {
        let child = cell.child(0);
        self.octants.contains_key(&child.0)
    }

    /// The corner densities of `cell`.
    pub fn values_of(&self, cell: OctantKey) -> (r: [i64; 8])
        requires self.octants@.contains_key(cell.0),
        ensures r == self.octants@[cell.0],
    {
        *self.octants.get(&cell.0).unwrap()
    }

    /// Whether `cell` intersects the isosurface: two adjacent corners of
    /// opposite sign.
    pub fn intersects_surface(&self, cell: OctantKey) -> (r: bool)
        requires self.octants@.contains_key(cell.0),
        ensures r == diff_signs_spec(cell_values(self.octants@[cell.0])),
    {
        let v = self.values_of(cell);
        (v[0] < 0) != (v[1] < 0)
            || (v[1] < 0) != (v[2] < 0)
            || (v[2] < 0) != (v[3] < 0)
            || (v[3] < 0) != (v[4] < 0)
            || (v[4] < 0) != (v[5] < 0)
            || (v[5] < 0) != (v[6] < 0)
            || (v[6] < 0) != (v[7] < 0)
    }

    /// Whether the collapse rule fires for `cell`: it has children, and
    /// none of them has children of its own or crosses the isosurface.
    pub open spec fn collapsible_spec(self, cell: OctantKey) -> bool {
        &&& cell.spec_depth() < 19
        &&& self.octants@.contains_key(child_raw(cell.0, 0))
        &&& forall|i: int| 0 <= i < 8 ==> {
            let ck = #[trigger] child_raw(cell.0, i);
            &&& !(OctantKey(ck).spec_depth() < 19 && self.octants@.contains_key(child_raw(ck, 0)))
            &&& !diff_signs_spec(cell_values(self.octants@[ck]))
        }
    }

    /// Returns true if `cell` can be collapsed back into a leaf.
    pub fn is_collapsible(&self, cell: OctantKey) -> (r: bool)
        requires
            self.wf(),
            cell.wf(),
            self.octants@.contains_key(cell.0),
        ensures r == self.collapsible_spec(cell),
    {
        if cell.at_max_depth() {
            return false;
        }
        if !self.has_children(cell) {
            return false;
        }
        let mut i: u8 = 0;
        while i < 8
            invariant
                self.wf(),
                cell.wf(),
                cell.spec_depth() < 19,
                self.octants@.contains_key(cell.0),
                self.octants@.contains_key(child_raw(cell.0, 0)),
                i <= 8,
                forall|j: int| 0 <= j < i ==> {
                    let ck = #[trigger] child_raw(cell.0, j);
                    &&& !(OctantKey(ck).spec_depth() < 19
                        && self.octants@.contains_key(child_raw(ck, 0)))
                    &&& !diff_signs_spec(cell_values(self.octants@[ck]))
                },
            decreases 8 - i,
        {
            let child = cell.child(i);
            proof {
                assert(child.0 == child_raw(cell.0, i as int));
                assert(self.octants@.contains_key(child.0));
            }
            let deeper = if child.at_max_depth() { false } else { self.has_children(child) };
            if deeper || self.intersects_surface(child) {
                proof {
                    let ck = child_raw(cell.0, i as int);
                    assert(!(!(OctantKey(ck).spec_depth() < 19
                            && self.octants@.contains_key(child_raw(ck, 0)))
                        && !diff_signs_spec(cell_values(self.octants@[ck]))));
                }
                return false;
            }
            i = i + 1;
        }
        true
    }

    /// Collapse `cell`: drop its 8 children and mark it a leaf again.
    /// A no-op unless the collapse rule fires.
    pub fn collapse_cell(&mut self, cell: OctantKey)
        requires
            old(self).wf(),
            cell.wf(),
            old(self).octants@.contains_key(cell.0),
        ensures
            final(self).wf(),
            old(self).collapsible_spec(cell) ==> {
                &&& final(self).octants@ == old(self).octants@
                    .remove(child_raw(cell.0, 0)).remove(child_raw(cell.0, 1))
                    .remove(child_raw(cell.0, 2)).remove(child_raw(cell.0, 3))
                    .remove(child_raw(cell.0, 4)).remove(child_raw(cell.0, 5))
                    .remove(child_raw(cell.0, 6)).remove(child_raw(cell.0, 7))
                &&& final(self).leaves@ == old(self).leaves@
                    .remove(child_raw(cell.0, 0)).remove(child_raw(cell.0, 1))
                    .remove(child_raw(cell.0, 2)).remove(child_raw(cell.0, 3))
                    .remove(child_raw(cell.0, 4)).remove(child_raw(cell.0, 5))
                    .remove(child_raw(cell.0, 6)).remove(child_raw(cell.0, 7))
                    .insert(cell.0)
            },
            !old(self).collapsible_spec(cell) ==> *final(self) == *old(self),
    {
        if !self.is_collapsible(cell) {
            return;
        }
        let c0 = cell.child(0);
        let c1 = cell.child(1);
        let c2 = cell.child(2);
        let c3 = cell.child(3);
        let c4 = cell.child(4);
        let c5 = cell.child(5);
        let c6 = cell.child(6);
        let c7 = cell.child(7);
        self.leaves.remove(&c0.0);
        self.octants.remove(&c0.0);
        self.leaves.remove(&c1.0);
        self.octants.remove(&c1.0);
        self.leaves.remove(&c2.0);
        self.octants.remove(&c2.0);
        self.leaves.remove(&c3.0);
        self.octants.remove(&c3.0);
        self.leaves.remove(&c4.0);
        self.octants.remove(&c4.0);
        self.leaves.remove(&c5.0);
        self.octants.remove(&c5.0);
        self.leaves.remove(&c6.0);
        self.octants.remove(&c6.0);
        self.leaves.remove(&c7.0);
        self.octants.remove(&c7.0);
        self.leaves.insert(cell.0);
        proof {
            lemma_key_zero_wf();
            lemma_wf_after_removes(*old(self), *self, cell);
        }
    }

    /// Split `cell` into 8 children whose corners interpolate `values`
    /// through the 27-point grid; a no-op at maximum depth or when
    /// children already exist.
    pub fn subdivide_with_old_values(&mut self, cell: OctantKey, values: &[i64; 8])
        requires
            old(self).wf(),
            cell.wf(),
            old(self).octants@.contains_key(cell.0),
            forall|i: int| 0 <= i < 8 ==> in_unit_range(#[trigger] values[i] as int),
        ensures
            final(self).wf(),
            (cell.spec_depth() == 19
                || old(self).octants@.contains_key(child_raw(cell.0, 0))) ==>
                *final(self) == *old(self),
            !(cell.spec_depth() == 19
                || old(self).octants@.contains_key(child_raw(cell.0, 0))) ==> {
                &&& final(self).octants@.dom() == old(self).octants@.dom()
                    .insert(child_raw(cell.0, 0)).insert(child_raw(cell.0, 1))
                    .insert(child_raw(cell.0, 2)).insert(child_raw(cell.0, 3))
                    .insert(child_raw(cell.0, 4)).insert(child_raw(cell.0, 5))
                    .insert(child_raw(cell.0, 6)).insert(child_raw(cell.0, 7))
                &&& forall|i: int| 0 <= i < 8 ==>
                    cell_values(final(self).octants@[#[trigger] child_raw(cell.0, i)])
                        == Seq::new(8, |k: int| grid_point(cell_values(*values),
                            grid_base(i) + grid_base(k)))
                &&& forall|k: u64| #[trigger] old(self).octants@.contains_key(k) ==>
                    final(self).octants@[k] == old(self).octants@[k]
                &&& final(self).leaves@ == old(self).leaves@
                    .insert(child_raw(cell.0, 0)).insert(child_raw(cell.0, 1))
                    .insert(child_raw(cell.0, 2)).insert(child_raw(cell.0, 3))
                    .insert(child_raw(cell.0, 4)).insert(child_raw(cell.0, 5))
                    .insert(child_raw(cell.0, 6)).insert(child_raw(cell.0, 7))
                    .remove(cell.0)
            },
    {
        if cell.at_max_depth() {
            return;
        }
        if self.has_children(cell) {
            return;
        }
        let child_values = subdivide_cell(values);
        let ghost before = *self;
        let c0 = cell.child(0);
        let c1 = cell.child(1);
        let c2 = cell.child(2);
        let c3 = cell.child(3);
        let c4 = cell.child(4);
        let c5 = cell.child(5);
        let c6 = cell.child(6);
        let c7 = cell.child(7);
        self.leaves.insert(c0.0);
        self.octants.insert(c0.0, child_values[0]);
        self.leaves.insert(c1.0);
        self.octants.insert(c1.0, child_values[1]);
        self.leaves.insert(c2.0);
        self.octants.insert(c2.0, child_values[2]);
        self.leaves.insert(c3.0);
        self.octants.insert(c3.0, child_values[3]);
        self.leaves.insert(c4.0);
        self.octants.insert(c4.0, child_values[4]);
        self.leaves.insert(c5.0);
        self.octants.insert(c5.0, child_values[5]);
        self.leaves.insert(c6.0);
        self.octants.insert(c6.0, child_values[6]);
        self.leaves.insert(c7.0);
        self.octants.insert(c7.0, child_values[7]);
        self.leaves.remove(&cell.0);
        proof {
            assert(self.octants@.dom() =~= old(self).octants@.dom()
                .insert(child_raw(cell.0, 0)).insert(child_raw(cell.0, 1))
                .insert(child_raw(cell.0, 2)).insert(child_raw(cell.0, 3))
                .insert(child_raw(cell.0, 4)).insert(child_raw(cell.0, 5))
                .insert(child_raw(cell.0, 6)).insert(child_raw(cell.0, 7)));
            assert(self.leaves@ =~= old(self).leaves@
                .insert(child_raw(cell.0, 0)).insert(child_raw(cell.0, 1))
                .insert(child_raw(cell.0, 2)).insert(child_raw(cell.0, 3))
                .insert(child_raw(cell.0, 4)).insert(child_raw(cell.0, 5))
                .insert(child_raw(cell.0, 6)).insert(child_raw(cell.0, 7))
                .remove(cell.0));
            assert forall|i: int| 0 <= i < 8 implies
                cell_values(self.octants@[#[trigger] child_raw(cell.0, i)])
                    == Seq::new(8, |k: int| grid_point(cell_values(*values),
                        grid_base(i) + grid_base(k))) by {
                lemma_children_distinct(cell);
                assert(cell_values(*values) =~= crate::marching_cubes::density_seq(values@));
                if i == 0 { assert(self.octants@[child_raw(cell.0, 0)] == child_values[0]); }
                else if i == 1 { assert(self.octants@[child_raw(cell.0, 1)] == child_values[1]); }
                else if i == 2 { assert(self.octants@[child_raw(cell.0, 2)] == child_values[2]); }
                else if i == 3 { assert(self.octants@[child_raw(cell.0, 3)] == child_values[3]); }
                else if i == 4 { assert(self.octants@[child_raw(cell.0, 4)] == child_values[4]); }
                else if i == 5 { assert(self.octants@[child_raw(cell.0, 5)] == child_values[5]); }
                else if i == 6 { assert(self.octants@[child_raw(cell.0, 6)] == child_values[6]); }
                else { assert(self.octants@[child_raw(cell.0, 7)] == child_values[7]); }
                assert(cell_values(child_values[i])
                    =~= Seq::new(8, |k: int| grid_point(cell_values(*values),
                        grid_base(i) + grid_base(k))));
            }
            lemma_wf_after_subdivide(before, *self, cell);
        }
    }

    /// Whether a step left the key `k` exactly as it was.
    pub open spec fn untouched(pre: OctantMap, post: OctantMap, k: u64) -> bool {
        &&& post.octants@.contains_key(k) == pre.octants@.contains_key(k)
        &&& (pre.octants@.contains_key(k) ==> post.octants@[k] == pre.octants@[k])
        &&& post.leaves@.contains(k) == pre.leaves@.contains(k)
    }

    /// The frame of one sculpting step aimed at `octant`: every key that
    /// is neither `octant` nor one of its descendants is untouched.
    pub open spec fn frame_ok(pre: OctantMap, post: OctantMap, octant: OctantKey) -> bool {
        forall|k: u64| !(k == octant.0 || octant.contains_spec(OctantKey(k))) ==>
            #[trigger] Self::untouched(pre, post, k)
    }

    /// One sculpting pass aimed at `octant`: update its densities from
    /// the tool and the action, subdivide a leaf that wants more
    /// resolution, recurse into the children, and collapse them if they
    /// came out as uniform leaves. Only `octant` and its descendants are
    /// touched, and the octant's subtree comes out exactly as
    /// `apply_model` of its old materialization.
    #[verifier::rlimit(100)]
    fn apply_at<F: ToolFunc>(
        &mut self,
        tool: &F,
        tool_aabb: AABB,
        aoe_aabb: AABB,
        action: Action,
        max_depth: u8,
        octant: OctantKey,
    )
        requires
            old(self).wf(),
            tool.wf(),
            tool_aabb.wf(),
            aoe_aabb.wf(),
            octant.wf(),
            old(self).octants@.contains_key(octant.0),
            max_depth <= 19,
        ensures
            final(self).wf(),
            Self::frame_ok(*old(self), *final(self), octant),
            final(self).octants@.contains_key(octant.0),
            cell_values(final(self).octants@[octant.0]) == new_values_spec(*tool,
                cell_values(old(self).octants@[octant.0]), action, aabb_of_path(octant.path())),
            map_cell_model(final(self).octants@, octant) == apply_model(*tool,
                map_cell_model(old(self).octants@, octant), tool_aabb, aoe_aabb, action,
                aabb_of_path(octant.path()), octant.spec_depth() as int, max_depth as int),
        decreases 19 - octant.spec_depth(), 2nat, 0nat,
    {
        let ghost pre = *self;
        let ghost m0 = map_cell_model(pre.octants@, octant);
        let ghost dd = octant.spec_depth() as int;
        let ghost nv = new_values_spec(*tool, cell_values(pre.octants@[octant.0]), action,
            aabb_of_path(octant.path()));
        proof {
            reveal(map_cell_model);
            assert(m0.values == cell_values(pre.octants@[octant.0]));
        }
        let subdivided = self.update_cell(tool, tool_aabb, aoe_aabb, action, max_depth, octant);
        let ghost mid2 = *self;
        let depth = octant.depth();
        if depth < OCTANT_KEY_MAX_DEPTH {
            if self.has_children(octant) {
                self.sculpt_phase(tool, tool_aabb, aoe_aabb, action, max_depth, octant,
                    Ghost(pre), Ghost(m0), Ghost(nv), Ghost(subdivided));
                proof {
                    lemma_frame_compose(pre, mid2, *self, octant, octant);
                }
                return;
            }
        }
        proof {
            // No children to recurse into: the pass stops at this cell,
            // and the model's subdivision rule did not fire either (the
            // exec gate covers exactly `depth < max_depth`, as
            // `max_depth <= 19`, with the same split decision).
            lemma_leaf_result(*tool, pre, *self, octant, tool_aabb, aoe_aabb, action, max_depth);
        }
    }

    /// Evaluate the tool at the octant's corners, commit the combined
    /// densities, and split the cell first when the subdivision rule
    /// fires on a leaf above the depth cap.
    #[verifier::rlimit(100)]
    fn update_cell<F: ToolFunc>(
        &mut self,
        tool: &F,
        tool_aabb: AABB,
        aoe_aabb: AABB,
        action: Action,
        max_depth: u8,
        octant: OctantKey,
    ) -> (subdivided: bool)
        requires
            old(self).wf(),
            tool.wf(),
            tool_aabb.wf(),
            aoe_aabb.wf(),
            octant.wf(),
            old(self).octants@.contains_key(octant.0),
            max_depth <= 19,
        ensures
            final(self).wf(),
            Self::frame_ok(*old(self), *final(self), octant),
            final(self).octants@.contains_key(octant.0),
            cell_values(final(self).octants@[octant.0]) == new_values_spec(*tool,
                cell_values(old(self).octants@[octant.0]), action, aabb_of_path(octant.path())),
            subdivided == (octant.spec_depth() < 19
                && octant.spec_depth() < max_depth
                && !old(self).octants@.contains_key(child_raw(octant.0, 0))
                && should_subdivide_spec(*tool, new_values_spec(*tool,
                    cell_values(old(self).octants@[octant.0]), action,
                    aabb_of_path(octant.path())), action, tool_aabb, aoe_aabb,
                    aabb_of_path(octant.path()))),
            final(self).octants@.contains_key(child_raw(octant.0, 0))
                == (old(self).octants@.contains_key(child_raw(octant.0, 0)) || subdivided),
            !subdivided ==> (forall|k2: u64| k2 != octant.0 ==>
                #[trigger] Self::untouched(*old(self), *final(self), k2)),
            subdivided ==> final(self).octants@.dom() == old(self).octants@.dom()
                .insert(child_raw(octant.0, 0)).insert(child_raw(octant.0, 1))
                .insert(child_raw(octant.0, 2)).insert(child_raw(octant.0, 3))
                .insert(child_raw(octant.0, 4)).insert(child_raw(octant.0, 5))
                .insert(child_raw(octant.0, 6)).insert(child_raw(octant.0, 7)),
            subdivided ==> (forall|i: int| 0 <= i < 8 ==>
                cell_values(final(self).octants@[#[trigger] child_raw(octant.0, i)])
                    == Seq::new(8, |k: int| grid_point(
                        cell_values(old(self).octants@[octant.0]),
                        grid_base(i) + grid_base(k)))),
    {
        let ghost pre = *self;
        let aabb = octant.aabb();
        let vals = self.values_of(octant);
        proof {
            assert forall|i: int| 0 <= i < 8 implies
                in_unit_range(#[trigger] vals[i] as int) by {
                assert(in_unit_range(pre.octants@[octant.0][i] as int));
            }
        }
        let newvals = NaiveOctreeCell::apply_corners(tool, &vals, action, aabb);
        proof {
            assert(crate::marching_cubes::density_seq(vals@) =~= cell_values(vals));
            assert(crate::marching_cubes::density_seq(newvals@) =~= cell_values(newvals));
        }
        let depth = octant.depth();
        let had_children = if depth < OCTANT_KEY_MAX_DEPTH { self.has_children(octant) } else { false };
        let mut subdivided = false;
        if depth < OCTANT_KEY_MAX_DEPTH && depth < max_depth && !had_children {
            let split = NaiveOctreeCell::wants_split(tool, &newvals, action, tool_aabb,
                aoe_aabb, aabb);
            if split {
                self.subdivide_with_old_values(octant, &vals);
                subdivided = true;
            }
        }
        let ghost mid1 = *self;
        proof {
            assert(Self::frame_ok(pre, mid1, octant)) by {
                lemma_subtree_frame(pre, mid1, octant);
            }
            assert(mid1.octants@.contains_key(octant.0));
            assert(mid1.octants@[octant.0] == pre.octants@[octant.0]);
        }
        self.octants.insert(octant.0, newvals);
        proof {
            assert(self.octants@.dom() =~= mid1.octants@.dom());
            lemma_wf_value_update(mid1, *self, octant.0, newvals);
            assert(Self::frame_ok(mid1, *self, octant)) by {
                assert forall|k: u64| !(k == octant.0 || octant.contains_spec(OctantKey(k)))
                    implies #[trigger] Self::untouched(mid1, *self, k) by {
                }
            }
            assert(Self::frame_ok(pre, *self, octant)) by {
                lemma_frame_compose(pre, mid1, *self, octant, octant);
            }
            if !subdivided {
                assert forall|k2: u64| k2 != octant.0 implies
                    #[trigger] Self::untouched(pre, *self, k2) by {
                }
            } else {
                lemma_children_distinct(octant);
                assert forall|i: int| 0 <= i < 8 implies
                    cell_values(self.octants@[#[trigger] child_raw(octant.0, i)])
                        == Seq::new(8, |k: int| grid_point(
                            cell_values(pre.octants@[octant.0]),
                            grid_base(i) + grid_base(k))) by {
                    lemma_child_deeper(octant, i as u8);
                    assert(child_raw(octant.0, i) != octant.0);
                    assert(self.octants@[child_raw(octant.0, i)]
                        == mid1.octants@[child_raw(octant.0, i)]);
                }
                assert(self.octants@.dom() =~= pre.octants@.dom()
                    .insert(child_raw(octant.0, 0)).insert(child_raw(octant.0, 1))
                    .insert(child_raw(octant.0, 2)).insert(child_raw(octant.0, 3))
                    .insert(child_raw(octant.0, 4)).insert(child_raw(octant.0, 5))
                    .insert(child_raw(octant.0, 6)).insert(child_raw(octant.0, 7)));
            }
            assert(self.octants@.contains_key(child_raw(octant.0, 0))
                == (pre.octants@.contains_key(child_raw(octant.0, 0)) || subdivided));
        }
        subdivided
    }

    /// The recursion phase of one pass: build the model's child inputs,
    /// recurse and collapse, leaving the octant materialized as
    /// `apply_model` of `m0`.
    #[verifier::rlimit(100)]
    fn sculpt_phase<F: ToolFunc>(
        &mut self,
        tool: &F,
        tool_aabb: AABB,
        aoe_aabb: AABB,
        action: Action,
        max_depth: u8,
        octant: OctantKey,
        Ghost(pre): Ghost<OctantMap>,
        Ghost(m0): Ghost<CellModel>,
        Ghost(nv): Ghost<Seq<int>>,
        Ghost(subdivided): Ghost<bool>,
    )
        requires
            old(self).wf(),
            tool.wf(),
            tool_aabb.wf(),
            aoe_aabb.wf(),
            octant.wf(),
            octant.spec_depth() < 19,
            max_depth <= 19,
            pre.wf(),
            pre.octants@.contains_key(octant.0),
            m0 == map_cell_model(pre.octants@, octant),
            m0.values == cell_values(pre.octants@[octant.0]),
            nv == new_values_spec(*tool, m0.values, action, aabb_of_path(octant.path())),
            old(self).octants@.contains_key(octant.0),
            old(self).octants@.contains_key(child_raw(octant.0, 0)),
            cell_values(old(self).octants@[octant.0]) == nv,
            subdivided == (octant.spec_depth() < 19
                && octant.spec_depth() < max_depth
                && !pre.octants@.contains_key(child_raw(octant.0, 0))
                && should_subdivide_spec(*tool, nv, action, tool_aabb, aoe_aabb,
                    aabb_of_path(octant.path()))),
            !subdivided ==> (forall|k2: u64| k2 != octant.0 ==>
                #[trigger] Self::untouched(pre, *old(self), k2)),
            subdivided ==> old(self).octants@.dom() == pre.octants@.dom()
                .insert(child_raw(octant.0, 0)).insert(child_raw(octant.0, 1))
                .insert(child_raw(octant.0, 2)).insert(child_raw(octant.0, 3))
                .insert(child_raw(octant.0, 4)).insert(child_raw(octant.0, 5))
                .insert(child_raw(octant.0, 6)).insert(child_raw(octant.0, 7)),
            subdivided ==> (forall|i: int| 0 <= i < 8 ==>
                cell_values(old(self).octants@[#[trigger] child_raw(octant.0, i)])
                    == Seq::new(8, |k: int| grid_point(m0.values, grid_base(i) + grid_base(k)))),
        ensures
            final(self).wf(),
            Self::frame_ok(*old(self), *final(self), octant),
            final(self).octants@.contains_key(octant.0),
            cell_values(final(self).octants@[octant.0]) == nv,
            map_cell_model(final(self).octants@, octant) == apply_model(*tool, m0, tool_aabb,
                aoe_aabb, action, aabb_of_path(octant.path()), octant.spec_depth() as int,
                max_depth as int),
        decreases 19 - octant.spec_depth(), 1nat, 2nat,
    {
        let ghost mid2 = *self;
        let ghost dd = octant.spec_depth() as int;
        // The children the model recursion starts from: the old
        // materialized children, or the fresh interpolated leaves.
        let ghost cs: Seq<CellModel> = if subdivided {
            Seq::new(8, |j: int| leaf_child_model(m0.values, j))
        } else {
            Seq::new(8, |j: int| child_model(pre.octants@, octant, j))
        };
        let ghost rec: Seq<CellModel> = apply_children_model(*tool, cs, tool_aabb,
            aoe_aabb, action, aabb_of_path(octant.path()), dd, max_depth as int);
        proof {
            lemma_group_present(mid2, octant);
            if subdivided {
                lemma_children_start_fresh(pre, mid2, octant, m0, cs);
            } else {
                lemma_children_start_kept(pre, mid2, octant, cs);
            }
        }
        proof {
            reveal_with_fuel(apply_children_model, 1);
            assert(rec.len() == 8);
            if subdivided {
                reveal(map_cell_model);
                assert(m0.children is None);
            } else {
                lemma_child_deeper(octant, 0);
                assert(child_raw(octant.0, 0) != octant.0);
                assert(Self::untouched(pre, mid2, child_raw(octant.0, 0)));
                lemma_existing_children_model(pre, octant, cs);
            }
        }
        self.sculpt_children(tool, tool_aabb, aoe_aabb, action, max_depth, octant,
            Ghost(m0), Ghost(nv), Ghost(cs), Ghost(rec), Ghost(subdivided));
    }

    /// Recurse into the children and collapse them if they came out as
    /// uniform leaves, leaving the octant materialized as `apply_model`
    /// of its old tree `m0`.
    #[verifier::rlimit(100)]
    fn sculpt_children<F: ToolFunc>(
        &mut self,
        tool: &F,
        tool_aabb: AABB,
        aoe_aabb: AABB,
        action: Action,
        max_depth: u8,
        octant: OctantKey,
        Ghost(m0): Ghost<CellModel>,
        Ghost(nv): Ghost<Seq<int>>,
        Ghost(cs): Ghost<Seq<CellModel>>,
        Ghost(rec): Ghost<Seq<CellModel>>,
        Ghost(subdivided): Ghost<bool>,
    )
        requires
            old(self).wf(),
            tool.wf(),
            tool_aabb.wf(),
            aoe_aabb.wf(),
            octant.wf(),
            octant.spec_depth() < 19,
            max_depth <= 19,
            old(self).octants@.contains_key(octant.0),
            forall|j: int| 0 <= j < 8 ==>
                old(self).octants@.contains_key(#[trigger] child_raw(octant.0, j)),
            cell_values(old(self).octants@[octant.0]) == nv,
            nv == new_values_spec(*tool, m0.values, action, aabb_of_path(octant.path())),
            cs.len() == 8,
            rec.len() == 8,
            forall|j: int| 0 <= j < 8 ==>
                #[trigger] child_model(old(self).octants@, octant, j) == cs[j],
            rec == apply_children_model(*tool, cs, tool_aabb, aoe_aabb, action,
                aabb_of_path(octant.path()), octant.spec_depth() as int, max_depth as int),
            subdivided ==> m0.children is None
                && octant.spec_depth() < max_depth
                && should_subdivide_spec(*tool, nv, action, tool_aabb, aoe_aabb,
                    aabb_of_path(octant.path()))
                && cs == Seq::new(8, |j: int| leaf_child_model(m0.values, j)),
            !subdivided ==> m0.children == Some(cs),
        ensures
            final(self).wf(),
            Self::frame_ok(*old(self), *final(self), octant),
            final(self).octants@.contains_key(octant.0),
            cell_values(final(self).octants@[octant.0]) == nv,
            map_cell_model(final(self).octants@, octant) == apply_model(*tool, m0, tool_aabb,
                aoe_aabb, action, aabb_of_path(octant.path()), octant.spec_depth() as int,
                max_depth as int),
        decreases 19 - octant.spec_depth(), 1nat, 1nat,
    {
        let ghost h0 = *self;
        let ghost dd = octant.spec_depth() as int;
        self.apply_children_at(tool, tool_aabb, aoe_aabb, action, max_depth, octant,
            Ghost(cs), Ghost(rec));
        let ghost s8pre = *self;
        proof {
            assert(cell_values(self.octants@[octant.0]) == nv);
        }
        self.collapse_or_keep(octant, Ghost(nv), Ghost(rec));
        proof {
            lemma_frame_compose(h0, s8pre, *self, octant, octant);
            lemma_apply_model_unfold(*tool, m0, tool_aabb, aoe_aabb, action,
                aabb_of_path(octant.path()), dd, max_depth as int, cs, rec, subdivided);
        }
    }

    /// Recurse the sculpting pass into the 8 children of `octant`,
    /// whose materializations are `cs`, leaving them materialized as
    /// `rec`, the model recursion's result.
    #[verifier::rlimit(100)]
    fn apply_children_at<F: ToolFunc>(
        &mut self,
        tool: &F,
        tool_aabb: AABB,
        aoe_aabb: AABB,
        action: Action,
        max_depth: u8,
        octant: OctantKey,
        Ghost(cs): Ghost<Seq<CellModel>>,
        Ghost(rec): Ghost<Seq<CellModel>>,
    )
        requires
            old(self).wf(),
            tool.wf(),
            tool_aabb.wf(),
            aoe_aabb.wf(),
            octant.wf(),
            octant.spec_depth() < 19,
            max_depth <= 19,
            old(self).octants@.contains_key(octant.0),
            forall|j: int| 0 <= j < 8 ==>
                old(self).octants@.contains_key(#[trigger] child_raw(octant.0, j)),
            cs.len() == 8,
            forall|j: int| 0 <= j < 8 ==>
                #[trigger] child_model(old(self).octants@, octant, j) == cs[j],
            rec == apply_children_model(*tool, cs, tool_aabb, aoe_aabb, action,
                aabb_of_path(octant.path()), octant.spec_depth() as int, max_depth as int),
        ensures
            final(self).wf(),
            Self::frame_ok(*old(self), *final(self), octant),
            final(self).octants@.contains_key(octant.0),
            final(self).octants@[octant.0] == old(self).octants@[octant.0],
            forall|j: int| 0 <= j < 8 ==>
                final(self).octants@.contains_key(#[trigger] child_raw(octant.0, j)),
            forall|j: int| 0 <= j < 8 ==>
                #[trigger] child_model(final(self).octants@, octant, j) == rec[j],
        decreases 19 - octant.spec_depth(), 1nat, 0nat,
    {
        let ghost h0 = *self;
        proof {
            assert(Self::frame_ok(h0, *self, octant));
        }
        self.apply_one_child(tool, tool_aabb, aoe_aabb, action, max_depth, octant, 0,
            Ghost(cs), Ghost(rec), Ghost(h0));
        self.apply_one_child(tool, tool_aabb, aoe_aabb, action, max_depth, octant, 1,
            Ghost(cs), Ghost(rec), Ghost(h0));
        self.apply_one_child(tool, tool_aabb, aoe_aabb, action, max_depth, octant, 2,
            Ghost(cs), Ghost(rec), Ghost(h0));
        self.apply_one_child(tool, tool_aabb, aoe_aabb, action, max_depth, octant, 3,
            Ghost(cs), Ghost(rec), Ghost(h0));
        self.apply_one_child(tool, tool_aabb, aoe_aabb, action, max_depth, octant, 4,
            Ghost(cs), Ghost(rec), Ghost(h0));
        self.apply_one_child(tool, tool_aabb, aoe_aabb, action, max_depth, octant, 5,
            Ghost(cs), Ghost(rec), Ghost(h0));
        self.apply_one_child(tool, tool_aabb, aoe_aabb, action, max_depth, octant, 6,
            Ghost(cs), Ghost(rec), Ghost(h0));
        self.apply_one_child(tool, tool_aabb, aoe_aabb, action, max_depth, octant, 7,
            Ghost(cs), Ghost(rec), Ghost(h0));
    }

    /// One step of the recursion: sculpt child `i`, leaving it
    /// materialized as `rec[i]` and every other child untouched.
    #[verifier::rlimit(100)]
    fn apply_one_child<F: ToolFunc>(
        &mut self,
        tool: &F,
        tool_aabb: AABB,
        aoe_aabb: AABB,
        action: Action,
        max_depth: u8,
        octant: OctantKey,
        i: u8,
        Ghost(cs): Ghost<Seq<CellModel>>,
        Ghost(rec): Ghost<Seq<CellModel>>,
        Ghost(h0): Ghost<OctantMap>,
    )
        requires
            old(self).wf(),
            tool.wf(),
            tool_aabb.wf(),
            aoe_aabb.wf(),
            octant.wf(),
            octant.spec_depth() < 19,
            i < 8,
            max_depth <= 19,
            old(self).octants@.contains_key(octant.0),
            forall|j: int| 0 <= j < 8 ==>
                old(self).octants@.contains_key(#[trigger] child_raw(octant.0, j)),
            cs.len() == 8,
            rec == apply_children_model(*tool, cs, tool_aabb, aoe_aabb, action,
                aabb_of_path(octant.path()), octant.spec_depth() as int, max_depth as int),
            forall|j: int| 0 <= j < 8 ==>
                #[trigger] child_model(old(self).octants@, octant, j)
                    == (if j < i { rec[j] } else { cs[j] }),
            Self::frame_ok(h0, *old(self), octant),
        ensures
            final(self).wf(),
            Self::frame_ok(h0, *final(self), octant),
            final(self).octants@.contains_key(octant.0),
            final(self).octants@[octant.0] == old(self).octants@[octant.0],
            forall|j: int| 0 <= j < 8 ==>
                final(self).octants@.contains_key(#[trigger] child_raw(octant.0, j)),
            forall|j: int| 0 <= j < 8 ==>
                #[trigger] child_model(final(self).octants@, octant, j)
                    == (if j < i + 1 { rec[j] } else { cs[j] }),
        decreases 19 - octant.spec_depth(), 0nat, 0nat,
    {
        let ghost p = *self;
        let ghost dd = octant.spec_depth() as int;
        let c = octant.child(i);
        proof {
            crate::octant_key::lemma_contains_own_child(octant, i);
            assert(c.0 == child_raw(octant.0, i as int));
            assert(self.octants@.contains_key(c.0));
        }
        self.apply_at(tool, tool_aabb, aoe_aabb, action, max_depth, c);
        proof {
            lemma_child_step(h0, p, *self, octant, c);
            lemma_children_distinct(octant);
            assert forall|j: int| 0 <= j < 8 implies
                #[trigger] self.octants@.contains_key(child_raw(octant.0, j)) by {
                if j == i {
                    assert(self.octants@.contains_key(c.0));
                } else {
                    let cj = OctantKey(child_raw(octant.0, j));
                    assert(p.octants@.contains_key(cj.0));
                    lemma_child_deeper(octant, j as u8);
                    lemma_child_deeper(octant, i);
                    assert(cj.0 != c.0);
                    assert(!c.contains_spec(cj)) by {
                        if c.contains_spec(cj) {
                            crate::octant_key::lemma_contains_deeper(c, cj);
                        }
                    }
                    assert(OctantMap::untouched(p, *self, cj.0));
                }
            }
            assert(self.octants@.contains_key(octant.0));
            assert(self.octants@[octant.0] == p.octants@[octant.0]);
            assert(OctantMap::frame_ok(p, *self, c)) by {
            }
            lemma_one_child_bookkeeping(*tool, p, *self, octant, i, cs, rec, tool_aabb,
                aoe_aabb, action, max_depth);
        }
    }

    /// Collapse `octant` if its freshly sculpted children are uniform
    /// leaves, leaving its materialization as the collapse-checked tree.
    #[verifier::rlimit(100)]
    fn collapse_or_keep(&mut self, octant: OctantKey, Ghost(nv): Ghost<Seq<int>>,
        Ghost(rec): Ghost<Seq<CellModel>>)
        requires
            old(self).wf(),
            octant.wf(),
            octant.spec_depth() < 19,
            old(self).octants@.contains_key(octant.0),
            forall|j: int| 0 <= j < 8 ==>
                old(self).octants@.contains_key(#[trigger] child_raw(octant.0, j)),
            forall|j: int| 0 <= j < 8 ==>
                #[trigger] child_model(old(self).octants@, octant, j) == rec[j],
            cell_values(old(self).octants@[octant.0]) == nv,
            rec.len() == 8,
        ensures
            final(self).wf(),
            Self::frame_ok(*old(self), *final(self), octant),
            final(self).octants@.contains_key(octant.0),
            cell_values(final(self).octants@[octant.0]) == nv,
            map_cell_model(final(self).octants@, octant) == if collapse_spec(rec) {
                CellModel { values: nv, children: None::<Seq<CellModel>> }
            } else {
                CellModel { values: nv, children: Some(rec) }
            },
    {
        let collapsible = self.is_collapsible(octant);
        let ghost s8 = *old(self);
        proof {
            lemma_collapsible_matches(s8, octant, rec);
        }
        if collapsible {
            self.collapse_cell(octant);
            proof {
                assert(Self::frame_ok(s8, *self, octant)) by {
                    lemma_subtree_frame(s8, *self, octant);
                }
                
                lemma_children_distinct(octant);
                assert forall|i: int| 0 <= i < 8 implies
                    #[trigger] child_raw(octant.0, i) != octant.0 by {
                    lemma_child_deeper(octant, i as u8);
                }
                assert(self.octants@.contains_key(octant.0));
                assert(self.octants@[octant.0] == s8.octants@[octant.0]);
                assert(!self.octants@.contains_key(child_raw(octant.0, 0)));
                reveal(map_cell_model);
                assert(map_cell_model(self.octants@, octant)
                    == (CellModel { values: nv, children: None::<Seq<CellModel>> }));
            }
        } else {
            proof {
                lemma_kept_model(s8, octant, nv, rec);
            }
        }
        proof {
            if !collapse_spec(rec) {
                assert(Self::frame_ok(s8, *self, octant)) by {
                    assert forall|k: u64| !(k == octant.0 || octant.contains_spec(OctantKey(k)))
                        implies #[trigger] Self::untouched(s8, *self, k) by {
                    }
                }
            }
        }
    }

    /// Applies the tool to the whole terrain with the given action,
    /// clipping the tool's boxes against the unit cube, subdividing as
    /// needed up to `max_depth` (the keys end at depth 19). The whole
    /// materialized tree comes out exactly as `apply_model` of the old
    /// one with the clipped boxes.
    pub fn apply_tool_recurse<F: ToolFunc>(&mut self, tool: &F, action: Action, max_depth: u8)
        requires
            old(self).wf(),
            tool.wf(),
        ensures
            final(self).wf(),
            ({
                let terrain = AABB::unit_cube_spec();
                let aoe0 = tool.spec_aoe_aabb();
                let tool0 = tool.spec_tool_aabb();
                let md = if max_depth <= 19 { max_depth as int } else { 19int };
                &&& (terrain.intersect_spec(aoe0) is DoesNotIntersect
                        || (terrain.intersect_spec(tool0) is DoesNotIntersect
                            && action is Place))
                    ==> *final(self) == *old(self)
                &&& !(terrain.intersect_spec(aoe0) is DoesNotIntersect
                        || (terrain.intersect_spec(tool0) is DoesNotIntersect
                            && action is Place))
                    ==> {
                        &&& map_cell_model(final(self).octants@, OctantKey(0))
                            == apply_model(*tool, map_cell_model(old(self).octants@, OctantKey(0)),
                                clip_spec(terrain, tool0), clip_spec(terrain, aoe0), action,
                                terrain, 0, md)
                        &&& final(self).octants@.contains_key(0)
                        &&& cell_values(final(self).octants@[0]) == new_values_spec(*tool,
                            cell_values(old(self).octants@[0]), action, terrain)
                    }
            }),
    {
        let root_aabb = AABB::unit_cube();
        let mut tool_aabb = tool.tool_aabb();
        let mut aoe_aabb = tool.aoe_aabb();
        proof {
            crate::aabb::lemma_overlap_wf(root_aabb, aoe_aabb);
            crate::aabb::lemma_overlap_wf(root_aabb, tool_aabb);
        }
        match root_aabb.intersect(tool_aabb) {
            crate::aabb::IntersectType::DoesNotIntersect => {
                if matches!(action, Action::Place) {
                    return;
                }
            },
            crate::aabb::IntersectType::Intersects(new_aabb) => {
                tool_aabb = new_aabb;
            },
            crate::aabb::IntersectType::ContainedBy => {
                tool_aabb = root_aabb;
            },
            crate::aabb::IntersectType::Contains => {},
        }
        match root_aabb.intersect(aoe_aabb) {
            crate::aabb::IntersectType::DoesNotIntersect => {
                return;
            },
            crate::aabb::IntersectType::Intersects(new_aabb) => {
                aoe_aabb = new_aabb;
            },
            crate::aabb::IntersectType::ContainedBy => {
                aoe_aabb = root_aabb;
            },
            crate::aabb::IntersectType::Contains => {},
        }
        let md = if max_depth < OCTANT_KEY_MAX_DEPTH { max_depth } else { OCTANT_KEY_MAX_DEPTH };
        let root = OctantKey::root();
        proof {
            assert(root.path() =~= Seq::<u64>::empty());
            assert(aabb_of_path(root.path()) == AABB::unit_cube_spec());
        }
        self.apply_at(tool, tool_aabb, aoe_aabb, action, md, root);
    }
}


/// Whether `k2` is `k` itself or one of its descendants.
pub open spec fn in_cone(k: OctantKey, k2: u64) -> bool {
    k2 == k.0 || k.contains_spec(OctantKey(k2))
}

/// The materialized child `j` of `octant` in the store `m`.
pub open spec fn child_model(m: Map<u64, [i64; 8]>, octant: OctantKey, j: int) -> CellModel {
    map_cell_model(m, octant.spec_push(j as u8))
}

/// A child's subtree lies inside the parent's subtree, excludes the
/// parent itself, and is disjoint from every sibling's subtree.
proof fn lemma_cone_facts(octant: OctantKey, i: u8, k2: u64)
    requires
        octant.wf(),
        octant.spec_depth() < 19,
        i < 8,
        in_cone(octant.spec_push(i), k2),
    ensures
        in_cone(octant, k2),
        k2 != octant.0,
        forall|j: u8| j < 8 && j != i ==> !#[trigger] in_cone(octant.spec_push(j), k2),
{
    let c = octant.spec_push(i);
    crate::octant_key::lemma_contains_own_child(octant, i);
    lemma_child_deeper(octant, i);
    if k2 == c.0 {
        assert(octant.contains_spec(OctantKey(k2)));
    } else {
        crate::octant_key::lemma_contains_trans(octant, c, OctantKey(k2));
    }
    // Anything in the child's subtree is strictly deeper than the parent.
    assert(OctantKey(k2).spec_depth() > octant.spec_depth()) by {
        if k2 == c.0 {
        } else {
            crate::octant_key::lemma_contains_deeper(c, OctantKey(k2));
        }
    }
    assert(k2 != octant.0);
    // Everything in the child's subtree carries the child's octant index
    // at the parent's depth, so sibling subtrees cannot overlap.
    let d = octant.spec_depth() as int;
    assert(OctantKey(k2).seg(d) == i) by {
        if k2 == c.0 {
            assert(c.path()[d] == i);
        } else {
            assert(c.contains_spec(OctantKey(k2)));
            assert(c.seg(d) == OctantKey(k2).seg(d));
            assert(c.path()[d] == i);
        }
    }
    assert forall|j: u8| j < 8 && j != i implies
        !#[trigger] in_cone(octant.spec_push(j), k2) by {
        let cj = octant.spec_push(j);
        lemma_child_deeper(octant, j);
        if in_cone(cj, k2) {
            assert(OctantKey(k2).seg(d) == j) by {
                if k2 == cj.0 {
                    assert(cj.path()[d] == j);
                } else {
                    assert(cj.contains_spec(OctantKey(k2)));
                    assert(cj.seg(d) == OctantKey(k2).seg(d));
                    assert(cj.path()[d] == j);
                }
            }
        }
    }
}

/// Two stores that agree on an octant's whole subtree materialize it to
/// the same cell tree.
proof fn lemma_map_cell_model_frame(m1: Map<u64, [i64; 8]>, m2: Map<u64, [i64; 8]>, k: OctantKey)
    requires
        k.wf(),
        forall|k2: u64| #[trigger] in_cone(k, k2) ==>
            (m1.contains_key(k2) == m2.contains_key(k2)
                && (m1.contains_key(k2) ==> m1[k2] == m2[k2])),
    ensures
        map_cell_model(m1, k) == map_cell_model(m2, k),
    decreases 19 - k.spec_depth(),
{
    reveal(map_cell_model);
    assert(in_cone(k, k.0));
    if k.spec_depth() < 19 {
        lemma_push_depths(k);
        assert(in_cone(k, child_raw(k.0, 0))) by {
            crate::octant_key::lemma_contains_own_child(k, 0);
        }
        if m1.contains_key(child_raw(k.0, 0)) {
            assert forall|i: u8| i < 8 implies
                map_cell_model(m1, #[trigger] k.spec_push(i))
                    == map_cell_model(m2, k.spec_push(i)) by {
                let c = k.spec_push(i);
                lemma_child_deeper(k, i);
                assert forall|k2: u64| #[trigger] in_cone(c, k2) implies
                    (m1.contains_key(k2) == m2.contains_key(k2)
                        && (m1.contains_key(k2) ==> m1[k2] == m2[k2])) by {
                    lemma_cone_facts(k, i, k2);
                }
                lemma_map_cell_model_frame(m1, m2, c);
            }
        }
    }
}

/// The box of a child key is the parent box's octant child.
proof fn lemma_child_box(octant: OctantKey, i: u8)
    requires
        octant.wf(),
        octant.spec_depth() < 19,
        i < 8,
    ensures
        aabb_of_path(octant.spec_push(i).path())
            == aabb_of_path(octant.path()).octree_child_spec(i as int),
{
    lemma_child_deeper(octant, i);
    let p = octant.spec_push(i).path();
    assert(p =~= octant.path().push(i as u64));
    assert(p.drop_last() =~= octant.path());
}


/// After splitting a leaf, each fresh child materializes to the
/// interpolated leaf model.
proof fn lemma_fresh_child_leaf(
    pre: OctantMap,
    mid: OctantMap,
    octant: OctantKey,
    m0: CellModel,
    j: int,
)
    requires
        pre.wf(),
        octant.wf(),
        octant.spec_depth() < 19,
        0 <= j < 8,
        pre.octants@.contains_key(octant.0),
        !pre.octants@.contains_key(child_raw(octant.0, 0)),
        m0 == map_cell_model(pre.octants@, octant),
        mid.octants@.dom() == pre.octants@.dom()
            .insert(child_raw(octant.0, 0)).insert(child_raw(octant.0, 1))
            .insert(child_raw(octant.0, 2)).insert(child_raw(octant.0, 3))
            .insert(child_raw(octant.0, 4)).insert(child_raw(octant.0, 5))
            .insert(child_raw(octant.0, 6)).insert(child_raw(octant.0, 7)),
        forall|i: int| 0 <= i < 8 ==>
            cell_values(mid.octants@[#[trigger] child_raw(octant.0, i)])
                == Seq::new(8, |k: int| grid_point(m0.values, grid_base(i) + grid_base(k))),
    ensures
        child_model(mid.octants@, octant, j) == leaf_child_model(m0.values, j),
{
    reveal(map_cell_model);
    let cj = octant.spec_push(j as u8);
    lemma_child_deeper(octant, j as u8);
    assert(mid.octants@.contains_key(cj.0));
    if cj.spec_depth() < 19 {
        assert(!mid.octants@.contains_key(child_raw(cj.0, 0))) by {
            if mid.octants@.contains_key(child_raw(cj.0, 0)) {
                if pre.octants@.contains_key(child_raw(cj.0, 0)) {
                    // Its parent, the fresh child, would then be in `pre`,
                    // and the sibling closure would give octant's child 0.
                    lemma_parent_of_member(pre, cj.0, 0);
                    assert(pre.octants@.contains_key(cj.0));
                    assert(pre.octants@.contains_key(child_raw(octant.0, 0)));
                    assert(false);
                } else {
                    // The grandchild would have to be one of the 8 fresh
                    // children, which are one level too shallow.
                    assert(exists|b: int| 0 <= b < 8
                        && child_raw(cj.0, 0) == #[trigger] child_raw(octant.0, b));
                    lemma_parent_unique(cj.0, octant, 0);
                    assert(cj.0 == octant.0);
                    assert(false);
                }
            }
        }
    }
    assert(map_cell_model(mid.octants@, cj).values
        =~= leaf_child_model(m0.values, j).values);
    assert(map_cell_model(mid.octants@, cj) =~~= leaf_child_model(m0.values, j));
}

/// One unfolding step of `apply_model` on a cell whose (old or fresh)
/// children are `cs` and whose recursed children are `rec`.
proof fn lemma_apply_model_unfold<F: ToolFunc>(
    tool: F,
    m0: CellModel,
    tool_aabb: AABB,
    aoe_aabb: AABB,
    action: Action,
    cell_aabb: AABB,
    dd: int,
    md: int,
    cs: Seq<CellModel>,
    rec: Seq<CellModel>,
    subdivided: bool,
)
    requires
        rec == apply_children_model(tool, cs, tool_aabb, aoe_aabb, action, cell_aabb, dd, md),
        cs.len() == 8,
        subdivided ==> m0.children is None && dd < md && md <= 255
            && should_subdivide_spec(tool, new_values_spec(tool, m0.values, action, cell_aabb),
                action, tool_aabb, aoe_aabb, cell_aabb)
            && cs == Seq::new(8, |j: int| leaf_child_model(m0.values, j)),
        !subdivided ==> m0.children == Some(cs),
    ensures
        apply_model(tool, m0, tool_aabb, aoe_aabb, action, cell_aabb, dd, md)
            == if collapse_spec(rec) {
                CellModel {
                    values: new_values_spec(tool, m0.values, action, cell_aabb),
                    children: None,
                }
            } else {
                CellModel {
                    values: new_values_spec(tool, m0.values, action, cell_aabb),
                    children: Some(rec),
                }
            },
{
    reveal(apply_model);
}


/// After sculpting child `i`, the children materialize to `rec` up to
/// `i` and to `cs` past it.
#[verifier::rlimit(100)]
proof fn lemma_one_child_bookkeeping<F: ToolFunc>(
    tool: F,
    p: OctantMap,
    post: OctantMap,
    octant: OctantKey,
    i: u8,
    cs: Seq<CellModel>,
    rec: Seq<CellModel>,
    tool_aabb: AABB,
    aoe_aabb: AABB,
    action: Action,
    max_depth: u8,
)
    requires
        octant.wf(),
        octant.spec_depth() < 19,
        i < 8,
        cs.len() == 8,
        rec == apply_children_model(tool, cs, tool_aabb, aoe_aabb, action,
            aabb_of_path(octant.path()), octant.spec_depth() as int, max_depth as int),
        forall|j: int| 0 <= j < 8 ==>
            #[trigger] child_model(p.octants@, octant, j)
                == (if j < i { rec[j] } else { cs[j] }),
        OctantMap::frame_ok(p, post, octant.spec_push(i)),
        map_cell_model(post.octants@, octant.spec_push(i))
            == apply_model(tool, map_cell_model(p.octants@, octant.spec_push(i)), tool_aabb,
                aoe_aabb, action, aabb_of_path(octant.spec_push(i).path()),
                octant.spec_push(i).spec_depth() as int, max_depth as int),
    ensures
        forall|j: int| 0 <= j < 8 ==>
            #[trigger] child_model(post.octants@, octant, j)
                == (if j < i + 1 { rec[j] } else { cs[j] }),
{
    let dd = octant.spec_depth() as int;
    let c = octant.spec_push(i);
    lemma_children_distinct(octant);
    assert forall|j: int| 0 <= j < 8 implies
        #[trigger] child_model(post.octants@, octant, j)
            == (if j < i + 1 { rec[j] } else { cs[j] }) by {
        reveal(apply_model);
        reveal_with_fuel(apply_children_model, 1);
        let cj = octant.spec_push(j as u8);
        if j == i {
            assert(child_model(p.octants@, octant, j) == cs[i as int]);
            lemma_child_box(octant, i);
            assert(c.spec_depth() as int == dd + 1) by {
                lemma_push_depths(octant);
            }
            assert(next_depth(dd) == dd + 1);
            assert(rec[i as int] == apply_model(tool, cs[i as int], tool_aabb,
                aoe_aabb, action,
                aabb_of_path(octant.path()).octree_child_spec(i as int),
                next_depth(dd), max_depth as int));
        } else {
            assert(child_model(p.octants@, octant, j)
                == (if j < i { rec[j] } else { cs[j] }));
            assert forall|k2: u64| #[trigger] in_cone(cj, k2) implies
                (p.octants@.contains_key(k2)
                    == post.octants@.contains_key(k2)
                    && (p.octants@.contains_key(k2)
                        ==> p.octants@[k2] == post.octants@[k2])) by {
                lemma_cone_facts(octant, j as u8, k2);
                assert(!in_cone(c, k2));
                assert(OctantMap::untouched(p, post, k2));
            }
            lemma_child_deeper(octant, j as u8);
            lemma_map_cell_model_frame(p.octants@, post.octants@, cj);
        }
    }
}

/// An untouched interior cell materializes to its densities over the
/// children's models.
#[verifier::rlimit(100)]
proof fn lemma_kept_model(s8: OctantMap, octant: OctantKey, nv: Seq<int>, rec: Seq<CellModel>)
    requires
        octant.wf(),
        octant.spec_depth() < 19,
        s8.octants@.contains_key(octant.0),
        s8.octants@.contains_key(child_raw(octant.0, 0)),
        cell_values(s8.octants@[octant.0]) == nv,
        forall|j: int| 0 <= j < 8 ==>
            #[trigger] child_model(s8.octants@, octant, j) == rec[j],
        rec.len() == 8,
    ensures
        map_cell_model(s8.octants@, octant) == (CellModel { values: nv, children: Some(rec) }),
{
    reveal(map_cell_model);
    assert(map_cell_model(s8.octants@, octant).children
        == Some(seq![
            map_cell_model(s8.octants@, octant.spec_push(0)),
            map_cell_model(s8.octants@, octant.spec_push(1)),
            map_cell_model(s8.octants@, octant.spec_push(2)),
            map_cell_model(s8.octants@, octant.spec_push(3)),
            map_cell_model(s8.octants@, octant.spec_push(4)),
            map_cell_model(s8.octants@, octant.spec_push(5)),
            map_cell_model(s8.octants@, octant.spec_push(6)),
            map_cell_model(s8.octants@, octant.spec_push(7)),
        ]));
    assert forall|j: u8| j < 8 implies
        map_cell_model(s8.octants@, #[trigger] octant.spec_push(j)) == rec[j as int] by {
        assert(child_model(s8.octants@, octant, j as int) == rec[j as int]);
    }
    assert(map_cell_model(s8.octants@, octant).children.unwrap() =~= rec);
}

/// The exec collapse test agrees with the model's collapse rule when the
/// children materialize to `rec`.
#[verifier::rlimit(100)]
proof fn lemma_collapsible_matches(s8: OctantMap, octant: OctantKey, rec: Seq<CellModel>)
    requires
        octant.wf(),
        octant.spec_depth() < 19,
        s8.octants@.contains_key(octant.0),
        forall|j: int| 0 <= j < 8 ==>
            s8.octants@.contains_key(#[trigger] child_raw(octant.0, j)),
        forall|j: int| 0 <= j < 8 ==>
            #[trigger] child_model(s8.octants@, octant, j) == rec[j],
    ensures
        s8.collapsible_spec(octant) == collapse_spec(rec),
{
    reveal(map_cell_model);
    assert forall|i: int| 0 <= i < 8 implies
        ((#[trigger] rec[i]).children is None
                <==> !(OctantKey(child_raw(octant.0, i)).spec_depth() < 19
                    && s8.octants@.contains_key(child_raw(child_raw(octant.0, i), 0))))
            && rec[i].values == cell_values(s8.octants@[child_raw(octant.0, i)]) by {
        assert(child_model(s8.octants@, octant, i) == rec[i]);
        assert(s8.octants@.contains_key(child_raw(octant.0, i)));
    }
    if s8.collapsible_spec(octant) {
        assert forall|i: int| 0 <= i < 8 implies (#[trigger] rec[i]).children is None
            && !diff_signs_spec(rec[i].values) by {
            assert(child_raw(octant.0, i) == child_raw(octant.0, i));
        }
    }
    if collapse_spec(rec) {
        assert(s8.octants@.contains_key(child_raw(octant.0, 0)));
        assert forall|i: int| 0 <= i < 8 implies ({
            let ck = #[trigger] child_raw(octant.0, i);
            &&& !(OctantKey(ck).spec_depth() < 19 && s8.octants@.contains_key(child_raw(ck, 0)))
            &&& !diff_signs_spec(cell_values(s8.octants@[ck]))
        }) by {
            assert(rec[i].children is None && !diff_signs_spec(rec[i].values));
        }
    }
}


/// After a split, the materialized children are the fresh leaves.
#[verifier::rlimit(100)]
proof fn lemma_children_start_fresh(
    pre: OctantMap,
    mid2: OctantMap,
    octant: OctantKey,
    m0: CellModel,
    cs: Seq<CellModel>,
)
    requires
        pre.wf(),
        octant.wf(),
        octant.spec_depth() < 19,
        pre.octants@.contains_key(octant.0),
        m0 == map_cell_model(pre.octants@, octant),
        !pre.octants@.contains_key(child_raw(octant.0, 0)),
        mid2.octants@.dom() == pre.octants@.dom()
            .insert(child_raw(octant.0, 0)).insert(child_raw(octant.0, 1))
            .insert(child_raw(octant.0, 2)).insert(child_raw(octant.0, 3))
            .insert(child_raw(octant.0, 4)).insert(child_raw(octant.0, 5))
            .insert(child_raw(octant.0, 6)).insert(child_raw(octant.0, 7)),
        forall|i: int| 0 <= i < 8 ==>
            cell_values(mid2.octants@[#[trigger] child_raw(octant.0, i)])
                == Seq::new(8, |k: int| grid_point(m0.values, grid_base(i) + grid_base(k))),
        cs == Seq::new(8, |j: int| leaf_child_model(m0.values, j)),
    ensures
        forall|j: int| 0 <= j < 8 ==>
            #[trigger] child_model(mid2.octants@, octant, j) == cs[j],
{
    assert forall|j: int| 0 <= j < 8 implies
        #[trigger] child_model(mid2.octants@, octant, j) == cs[j] by {
        lemma_child_deeper(octant, j as u8);
        lemma_fresh_child_leaf(pre, mid2, octant, m0, j);
    }
}

/// Without a split, the materialized children are the old ones: only the
/// octant's own densities changed.
#[verifier::rlimit(100)]
proof fn lemma_children_start_kept(
    pre: OctantMap,
    mid2: OctantMap,
    octant: OctantKey,
    cs: Seq<CellModel>,
)
    requires
        octant.wf(),
        octant.spec_depth() < 19,
        cs == Seq::new(8, |j: int| child_model(pre.octants@, octant, j)),
        forall|k2: u64| k2 != octant.0 ==> #[trigger] OctantMap::untouched(pre, mid2, k2),
    ensures
        forall|j: int| 0 <= j < 8 ==>
            #[trigger] child_model(mid2.octants@, octant, j) == cs[j],
{
    assert forall|j: int| 0 <= j < 8 implies
        #[trigger] child_model(mid2.octants@, octant, j) == cs[j] by {
        let cj = octant.spec_push(j as u8);
        lemma_child_deeper(octant, j as u8);
        assert forall|k2: u64| #[trigger] in_cone(cj, k2) implies
            (pre.octants@.contains_key(k2)
                == mid2.octants@.contains_key(k2)
                && (pre.octants@.contains_key(k2)
                    ==> pre.octants@[k2] == mid2.octants@[k2])) by {
            lemma_cone_facts(octant, j as u8, k2);
            assert(OctantMap::untouched(pre, mid2, k2));
        }
        lemma_map_cell_model_frame(pre.octants@, mid2.octants@, cj);
    }
}





/// An interior cell's materialized children are exactly its child
/// models.
#[verifier::rlimit(100)]
proof fn lemma_existing_children_model(pre: OctantMap, octant: OctantKey, cs: Seq<CellModel>)
    requires
        octant.wf(),
        octant.spec_depth() < 19,
        pre.octants@.contains_key(octant.0),
        pre.octants@.contains_key(child_raw(octant.0, 0)),
        cs == Seq::new(8, |j: int| child_model(pre.octants@, octant, j)),
    ensures
        map_cell_model(pre.octants@, octant).children == Some(cs),
{
    reveal(map_cell_model);
    assert(map_cell_model(pre.octants@, octant).children.unwrap() =~= cs);
}

/// A cell with no children, on which the subdivision rule did not fire,
/// comes out of the pass as a leaf with the new densities.
#[verifier::rlimit(100)]
proof fn lemma_leaf_result<F: ToolFunc>(
    tool: F,
    pre: OctantMap,
    post: OctantMap,
    octant: OctantKey,
    tool_aabb: AABB,
    aoe_aabb: AABB,
    action: Action,
    max_depth: u8,
)
    requires
        octant.wf(),
        max_depth <= 19,
        pre.octants@.contains_key(octant.0),
        post.octants@.contains_key(octant.0),
        cell_values(post.octants@[octant.0]) == new_values_spec(tool,
            cell_values(pre.octants@[octant.0]), action, aabb_of_path(octant.path())),
        !(octant.spec_depth() < 19 && post.octants@.contains_key(child_raw(octant.0, 0))),
        !(octant.spec_depth() < 19
            && octant.spec_depth() < max_depth
            && !pre.octants@.contains_key(child_raw(octant.0, 0))
            && should_subdivide_spec(tool, new_values_spec(tool,
                cell_values(pre.octants@[octant.0]), action, aabb_of_path(octant.path())),
                action, tool_aabb, aoe_aabb, aabb_of_path(octant.path()))),
        !pre.octants@.contains_key(child_raw(octant.0, 0)) || octant.spec_depth() >= 19,
    ensures
        map_cell_model(post.octants@, octant) == apply_model(tool,
            map_cell_model(pre.octants@, octant), tool_aabb, aoe_aabb, action,
            aabb_of_path(octant.path()), octant.spec_depth() as int, max_depth as int),
{
    reveal(map_cell_model);
    reveal(apply_model);
    let m0 = map_cell_model(pre.octants@, octant);
    let nv = new_values_spec(tool, cell_values(pre.octants@[octant.0]), action,
        aabb_of_path(octant.path()));
    assert(m0.children is None);
    assert(map_cell_model(post.octants@, octant)
        == (CellModel { values: nv, children: None::<Seq<CellModel>> }));
    if octant.spec_depth() >= max_depth {
        assert(apply_model(tool, m0, tool_aabb, aoe_aabb, action, aabb_of_path(octant.path()),
            octant.spec_depth() as int, max_depth as int)
            == (CellModel { values: nv, children: None::<Seq<CellModel>> }));
    }
}

/// The raw key 0 is a canonical octant key.
proof fn lemma_key_zero_wf()
    ensures
        OctantKey(0).wf(),
        OctantKey(0).spec_depth() == 0,
{
    assert(forall|off: u64| (0u64 >> off) & 7 == 0) by (bit_vector);
    assert(0u64 >> 59 == 0 && (0u64 >> 57) & 3 == 0) by (bit_vector);
}

/// A child key is one level deeper than its parent, so the two differ.
proof fn lemma_child_deeper(cell: OctantKey, i: u8)
    requires
        cell.wf(),
        cell.spec_depth() < 19,
        i < 8,
    ensures
        OctantKey(child_raw(cell.0, i as int)).spec_depth() == cell.spec_depth() + 1,
        child_raw(cell.0, i as int) != cell.0,
        OctantKey(child_raw(cell.0, i as int)).wf(),
        OctantKey(child_raw(cell.0, i as int)).path() == cell.path().push(i as u64),
{
    let c = cell.spec_push(i);
    let k1 = crate::packed::set3_spec(cell.0, (3 * cell.spec_depth()) as u64, i as u64);
    crate::packed::lemma_set_seg_effect(cell.0, cell.spec_depth() as int, i as u64);
    crate::packed::lemma_set3_hi(cell.0, (3 * cell.spec_depth()) as u64, i as u64);
    crate::packed::lemma_set_depth5(k1, (cell.spec_depth() + 1) as u64);
    assert forall|j: int| 0 <= j < 19 implies OctantKey(c.0).seg(j) == OctantKey(k1).seg(j) by {
        assert((3 * j) as u64 + 3 <= 57);
    }
    assert forall|j: int| OctantKey(c.0).spec_depth() <= j < 19 implies
        OctantKey(c.0).seg(j) == 0 by {
        assert(OctantKey(k1).seg(j) == cell.seg(j));
        assert(cell.seg(j) == 0);
    }
    assert(OctantKey(c.0).path() =~= cell.path().push(i as u64));
}

/// Distinct child indices give distinct child keys.
proof fn lemma_children_distinct(cell: OctantKey)
    requires
        cell.wf(),
        cell.spec_depth() < 19,
    ensures
        forall|i: int, j: int| 0 <= i < 8 && 0 <= j < 8 && i != j ==>
            #[trigger] child_raw(cell.0, i) != #[trigger] child_raw(cell.0, j),
{
    assert forall|i: int, j: int| 0 <= i < 8 && 0 <= j < 8 && i != j implies
        #[trigger] child_raw(cell.0, i) != #[trigger] child_raw(cell.0, j) by {
        lemma_child_deeper(cell, i as u8);
        lemma_child_deeper(cell, j as u8);
        let a = OctantKey(child_raw(cell.0, i));
        let b = OctantKey(child_raw(cell.0, j));
        assert(a.path()[cell.spec_depth() as int] == i);
        assert(b.path()[cell.spec_depth() as int] == j);
    }
}

/// Removing the 8 children of a collapsible cell keeps the map well
/// formed.
proof fn lemma_wf_after_removes(before: OctantMap, after: OctantMap, cell: OctantKey)
    requires
        before.wf(),
        cell.wf(),
        cell.spec_depth() < 19,
        before.octants@.contains_key(cell.0),
        before.collapsible_spec(cell),
        after.octants@ == before.octants@
            .remove(child_raw(cell.0, 0)).remove(child_raw(cell.0, 1))
            .remove(child_raw(cell.0, 2)).remove(child_raw(cell.0, 3))
            .remove(child_raw(cell.0, 4)).remove(child_raw(cell.0, 5))
            .remove(child_raw(cell.0, 6)).remove(child_raw(cell.0, 7)),
        after.leaves@ == before.leaves@
            .remove(child_raw(cell.0, 0)).remove(child_raw(cell.0, 1))
            .remove(child_raw(cell.0, 2)).remove(child_raw(cell.0, 3))
            .remove(child_raw(cell.0, 4)).remove(child_raw(cell.0, 5))
            .remove(child_raw(cell.0, 6)).remove(child_raw(cell.0, 7))
            .insert(cell.0),
    ensures after.wf(),
{
    lemma_children_distinct(cell);
    assert(after.octants@.contains_key(0)) by {
        lemma_key_zero_wf();
        assert forall|i: int| 0 <= i < 8 implies #[trigger] child_raw(cell.0, i) != 0 by {
            lemma_child_deeper(cell, i as u8);
        }
    }
    assert forall|k: u64, i: int, j: int|
        #[trigger] after.octants@.contains_key(child_raw(k, i))
            && after.octants@.contains_key(k) && OctantKey(k).spec_depth() < 19
            && 0 <= i < 8 && 0 <= j < 8
        implies after.octants@.contains_key(#[trigger] child_raw(k, j)) by {
        assert(before.octants@.contains_key(child_raw(k, i)));
        assert(before.octants@.contains_key(k));
        assert(before.octants@.contains_key(child_raw(k, j)));
        if child_raw(k, j) == child_raw(cell.0, 0) || child_raw(k, j) == child_raw(cell.0, 1)
            || child_raw(k, j) == child_raw(cell.0, 2) || child_raw(k, j) == child_raw(cell.0, 3)
            || child_raw(k, j) == child_raw(cell.0, 4) || child_raw(k, j) == child_raw(cell.0, 5)
            || child_raw(k, j) == child_raw(cell.0, 6) || child_raw(k, j) == child_raw(cell.0, 7) {
            lemma_parent_unique(k, cell, j);
            assert(k == cell.0);
            assert(!after.octants@.contains_key(child_raw(cell.0, i)));
            assert(false);
        }
    }
    assert forall|k: u64| #[trigger] after.octants@.contains_key(k)
        && OctantKey(k).spec_depth() > 0
        implies after.octants@.contains_key(parent_raw(k)) by {
        assert(before.octants@.contains_key(k));
        assert(before.octants@.contains_key(parent_raw(k)));
        if parent_raw(k) == child_raw(cell.0, 0) || parent_raw(k) == child_raw(cell.0, 1)
            || parent_raw(k) == child_raw(cell.0, 2) || parent_raw(k) == child_raw(cell.0, 3)
            || parent_raw(k) == child_raw(cell.0, 4) || parent_raw(k) == child_raw(cell.0, 5)
            || parent_raw(k) == child_raw(cell.0, 6) || parent_raw(k) == child_raw(cell.0, 7) {
            // k would be a grandchild of cell, but the collapse rule
            // says cell's children are leaves.
            let ck = parent_raw(k);
            assert(exists|b: int| 0 <= b < 8 && ck == #[trigger] child_raw(cell.0, b));
            let b = choose|b: int| 0 <= b < 8 && ck == #[trigger] child_raw(cell.0, b);
            lemma_child_deeper(cell, b as u8);
            assert(OctantKey(k).wf());
            crate::octant_key::lemma_octant_pop_push(OctantKey(k));
            let (p, index) = OctantKey(k).spec_pop();
            assert(p.0 == ck);
            assert(k == child_raw(ck, index as int));
            assert(OctantKey(ck).spec_depth() < 19);
            // sibling closure: cell's child ck has its child 0 present,
            // contradicting collapsibility.
            assert(before.octants@.contains_key(child_raw(ck, 0)));
            assert(false);
        }
    }
    assert forall|k: u64| #[trigger] after.octants@.contains_key(k) implies
        (after.leaves@.contains(k) <==> !(OctantKey(k).spec_depth() < 19
            && after.octants@.contains_key(child_raw(k, 0)))) by {
        assert(before.octants@.contains_key(k));
        if k == cell.0 {
            // The collapsed cell becomes a childless leaf.
            assert(after.leaves@.contains(k));
            assert(!after.octants@.contains_key(child_raw(cell.0, 0)));
        } else {
            // k is not the collapsed cell; its membership in leaves and
            // its first child can only change if that child was one of
            // cell's removed children, making k the cell itself.
            assert(after.leaves@.contains(k) == before.leaves@.contains(k));
            if OctantKey(k).spec_depth() < 19 {
                if before.octants@.contains_key(child_raw(k, 0))
                    != after.octants@.contains_key(child_raw(k, 0)) {
                    assert(exists|b: int| 0 <= b < 8
                        && child_raw(k, 0) == #[trigger] child_raw(cell.0, b));
                    lemma_parent_unique(k, cell, 0);
                    assert(false);
                }
            }
        }
    }
}

/// If some child of `k` equals some child of `cell`, the parents agree.
proof fn lemma_parent_unique(k: u64, cell: OctantKey, i: int)
    requires
        OctantKey(k).wf(),
        cell.wf(),
        OctantKey(k).spec_depth() < 19,
        cell.spec_depth() < 19,
        0 <= i < 8,
        exists|j: int| 0 <= j < 8 && #[trigger] child_raw(cell.0, j) == child_raw(k, i),
    ensures k == cell.0,
{
    let j = choose|j: int| 0 <= j < 8 && #[trigger] child_raw(cell.0, j) == child_raw(k, i);
    lemma_child_deeper(OctantKey(k), i as u8);
    lemma_child_deeper(cell, j as u8);
    let ck = OctantKey(child_raw(k, i));
    // Popping the shared child key restores both parents.
    crate::octant_key::lemma_octant_push_pop(OctantKey(k), i as u8);
    crate::octant_key::lemma_octant_push_pop(cell, j as u8);
    assert(OctantKey(k).spec_push(i as u8).spec_pop().0.0 == k);
    assert(cell.spec_push(j as u8).spec_pop().0.0 == cell.0);
    assert(ck.spec_pop().0.0 == k);
    assert(ck.spec_pop().0.0 == cell.0);
}

/// Inserting the 8 fresh children of a leaf keeps the map well formed.
proof fn lemma_wf_after_subdivide(before: OctantMap, after: OctantMap, cell: OctantKey)
    requires
        before.wf(),
        cell.wf(),
        cell.spec_depth() < 19,
        before.octants@.contains_key(cell.0),
        !before.octants@.contains_key(child_raw(cell.0, 0)),
        after.octants@.dom() == before.octants@.dom()
            .insert(child_raw(cell.0, 0)).insert(child_raw(cell.0, 1))
            .insert(child_raw(cell.0, 2)).insert(child_raw(cell.0, 3))
            .insert(child_raw(cell.0, 4)).insert(child_raw(cell.0, 5))
            .insert(child_raw(cell.0, 6)).insert(child_raw(cell.0, 7)),
        forall|i: int| 0 <= i < 8 ==> (forall|v: int| 0 <= v < 8 ==>
            in_unit_range(#[trigger] after.octants@[#[trigger] child_raw(cell.0, i)][v] as int)),
        forall|k: u64| #[trigger] before.octants@.contains_key(k) ==>
            after.octants@[k] == before.octants@[k],
        after.leaves@ == before.leaves@
            .insert(child_raw(cell.0, 0)).insert(child_raw(cell.0, 1))
            .insert(child_raw(cell.0, 2)).insert(child_raw(cell.0, 3))
            .insert(child_raw(cell.0, 4)).insert(child_raw(cell.0, 5))
            .insert(child_raw(cell.0, 6)).insert(child_raw(cell.0, 7))
            .remove(cell.0),
    ensures after.wf(),
{
    assert forall|i: int| 0 <= i < 8 implies
        OctantKey(#[trigger] child_raw(cell.0, i)).wf()
            && OctantKey(child_raw(cell.0, i)).spec_depth() == cell.spec_depth() + 1 by {
        lemma_child_deeper(cell, i as u8);
    }
    assert forall|k: u64| #[trigger] after.octants@.contains_key(k) implies
        OctantKey(k).wf()
            && (forall|v: int| 0 <= v < 8 ==>
                in_unit_range(#[trigger] after.octants@[k][v] as int)) by {
        if !before.octants@.contains_key(k) {
            assert(exists|i: int| 0 <= i < 8 && k == #[trigger] child_raw(cell.0, i));
        }
    }
    assert forall|k: u64, i: int, j: int|
        #[trigger] after.octants@.contains_key(child_raw(k, i))
            && after.octants@.contains_key(k) && OctantKey(k).spec_depth() < 19
            && 0 <= i < 8 && 0 <= j < 8
        implies after.octants@.contains_key(#[trigger] child_raw(k, j)) by {
        if k == cell.0 {
            assert(after.octants@.contains_key(child_raw(cell.0, j)));
        } else if before.octants@.contains_key(child_raw(k, i))
            && before.octants@.contains_key(k) {
            assert(before.octants@.contains_key(child_raw(k, j)));
        } else if !before.octants@.contains_key(child_raw(k, i)) {
            // The child was just inserted, so it is one of cell's fresh
            // children, making k the same cell as cell.
            assert(exists|b: int| 0 <= b < 8
                && child_raw(k, i) == #[trigger] child_raw(cell.0, b));
            lemma_parent_unique(k, cell, i);
            assert(k == cell.0);
            assert(after.octants@.contains_key(child_raw(cell.0, j)));
        } else {
            // k itself was just inserted: a fresh leaf child of cell. Its
            // own child was already present before; but then its parent,
            // which is k, was present before too — a contradiction.
            assert(exists|a: int| 0 <= a < 8 && k == #[trigger] child_raw(cell.0, a));
            let a = choose|a: int| 0 <= a < 8 && k == #[trigger] child_raw(cell.0, a);
            lemma_child_deeper(cell, a as u8);
            assert(before.octants@.contains_key(child_raw(k, i)));
            assert(OctantKey(k).wf());
            assert(OctantKey(k).spec_depth() < 19);
            lemma_parent_of_member(before, k, i);
            assert(before.octants@.contains_key(k));
            assert(false);
        }
    }
    assert forall|k: u64| #[trigger] after.octants@.contains_key(k)
        && OctantKey(k).spec_depth() > 0
        implies after.octants@.contains_key(parent_raw(k)) by {
        if before.octants@.contains_key(k) {
            assert(before.octants@.contains_key(parent_raw(k)));
        } else {
            assert(exists|a: int| 0 <= a < 8 && k == #[trigger] child_raw(cell.0, a));
            let a = choose|a: int| 0 <= a < 8 && k == #[trigger] child_raw(cell.0, a);
            lemma_parent_of_child(cell.0, a);
            assert(parent_raw(k) == cell.0);
        }
    }
    assert forall|k: u64| #[trigger] after.octants@.contains_key(k) implies
        (after.leaves@.contains(k) <==> !(OctantKey(k).spec_depth() < 19
            && after.octants@.contains_key(child_raw(k, 0)))) by {
        lemma_children_distinct(cell);
        if k == cell.0 {
            // The split cell left the leaf set and now has its children.
            assert(after.octants@.contains_key(child_raw(cell.0, 0)));
            assert(!after.leaves@.contains(k)) by {
                assert forall|i: int| 0 <= i < 8 implies
                    #[trigger] child_raw(cell.0, i) != cell.0 by {
                    lemma_child_deeper(cell, i as u8);
                }
                assert(!before.leaves@.contains(cell.0) || true);
            }
        } else if !before.octants@.contains_key(k) {
            // k is a fresh leaf child: in the leaf set, and childless,
            // since a grandchild would have needed its parent before.
            assert(exists|a: int| 0 <= a < 8 && k == #[trigger] child_raw(cell.0, a));
            let a = choose|a: int| 0 <= a < 8 && k == #[trigger] child_raw(cell.0, a);
            lemma_child_deeper(cell, a as u8);
            assert(after.leaves@.contains(k));
            if OctantKey(k).spec_depth() < 19 {
                assert(!after.octants@.contains_key(child_raw(k, 0))) by {
                    if after.octants@.contains_key(child_raw(k, 0)) {
                        if before.octants@.contains_key(child_raw(k, 0)) {
                            lemma_parent_of_member(before, k, 0);
                            assert(before.octants@.contains_key(k));
                            assert(false);
                        } else {
                            assert(exists|b: int| 0 <= b < 8
                                && child_raw(k, 0) == #[trigger] child_raw(cell.0, b));
                            lemma_parent_unique(k, cell, 0);
                            assert(k == cell.0);
                            assert(false);
                        }
                    }
                }
            }
        } else {
            // An unrelated existing cell: neither its leaf-set
            // membership nor its first child changed.
            assert(after.leaves@.contains(k) == before.leaves@.contains(k)) by {
                assert forall|i: int| 0 <= i < 8 implies
                    #[trigger] child_raw(cell.0, i) != k by {
                    lemma_child_deeper(cell, i as u8);
                }
            }
            if OctantKey(k).spec_depth() < 19 {
                if before.octants@.contains_key(child_raw(k, 0))
                    != after.octants@.contains_key(child_raw(k, 0)) {
                    assert(exists|b: int| 0 <= b < 8
                        && child_raw(k, 0) == #[trigger] child_raw(cell.0, b));
                    lemma_parent_unique(k, cell, 0);
                    assert(k == cell.0);
                    assert(false);
                }
            }
        }
    }
}

/// A child key pops back to its parent.
proof fn lemma_parent_of_child(k: u64, i: int)
    requires
        OctantKey(k).wf(),
        OctantKey(k).spec_depth() < 19,
        0 <= i < 8,
    ensures
        parent_raw(child_raw(k, i)) == k,
        OctantKey(child_raw(k, i)).spec_depth() == OctantKey(k).spec_depth() + 1,
{
    crate::octant_key::lemma_octant_push_pop(OctantKey(k), i as u8);
    lemma_child_deeper(OctantKey(k), i as u8);
}

/// A map closed under parents contains the parent of any child key it
/// contains.
proof fn lemma_parent_of_member(m: OctantMap, k: u64, i: int)
    requires
        m.wf(),
        OctantKey(k).wf(),
        OctantKey(k).spec_depth() < 19,
        0 <= i < 8,
        m.octants@.contains_key(child_raw(k, i)),
    ensures
        m.octants@.contains_key(k),
{
    lemma_parent_of_child(k, i);
    assert(OctantKey(child_raw(k, i)).spec_depth() > 0);
    assert(m.octants@.contains_key(parent_raw(child_raw(k, i))));
}

/// Every child of an octant is strictly contained in it.
proof fn lemma_all_children_contained(octant: OctantKey)
    requires
        octant.wf(),
        octant.spec_depth() < 19,
    ensures
        forall|i: int| 0 <= i < 8 ==>
            octant.contains_spec(#[trigger] octant.spec_push(i as u8)),
{
    assert forall|i: int| 0 <= i < 8 implies
        octant.contains_spec(#[trigger] octant.spec_push(i as u8)) by {
        crate::octant_key::lemma_contains_own_child(octant, i as u8);
    }
}

/// When an octant has its first child, the whole group of 8 is present.
proof fn lemma_group_present(m: OctantMap, octant: OctantKey)
    requires
        m.cells_ok(),
        octant.wf(),
        octant.spec_depth() < 19,
        m.octants@.contains_key(octant.0),
        m.octants@.contains_key(child_raw(octant.0, 0)),
    ensures
        forall|i: int| 0 <= i < 8 ==>
            m.octants@.contains_key(#[trigger] child_raw(octant.0, i)),
{
}

/// Overwriting the densities of a present key with clamped values keeps
/// the map well formed.
proof fn lemma_wf_value_update(pre: OctantMap, post: OctantMap, key: u64, vals: [i64; 8])
    requires
        pre.wf(),
        pre.octants@.contains_key(key),
        post.octants@ == pre.octants@.insert(key, vals),
        post.leaves@ == pre.leaves@,
        forall|i: int| 0 <= i < 8 ==> in_unit_range(#[trigger] vals[i] as int),
    ensures
        post.wf(),
{
    assert(post.octants@.dom() =~= pre.octants@.dom());
    assert forall|k: u64| #[trigger] post.octants@.contains_key(k) implies
        (post.leaves@.contains(k) <==> !(OctantKey(k).spec_depth() < 19
            && post.octants@.contains_key(child_raw(k, 0)))) by {
        assert(pre.octants@.contains_key(k));
        assert(pre.octants@.contains_key(child_raw(k, 0))
            == post.octants@.contains_key(child_raw(k, 0)));
    }
}

/// A step that stays inside `inner`'s subtree stays inside `outer`'s
/// subtree, and frames compose.
proof fn lemma_frame_compose(
    pre: OctantMap,
    mid: OctantMap,
    post: OctantMap,
    outer: OctantKey,
    inner: OctantKey,
)
    requires
        OctantMap::frame_ok(pre, mid, outer),
        OctantMap::frame_ok(mid, post, inner),
        inner == outer || outer.contains_spec(inner),
    ensures
        OctantMap::frame_ok(pre, post, outer),
{
    assert forall|k: u64| !(k == outer.0 || outer.contains_spec(OctantKey(k))) implies
        #[trigger] OctantMap::untouched(pre, post, k) by {
        assert(!(k == inner.0 || inner.contains_spec(OctantKey(k)))) by {
            assert(OctantKey(inner.0) == inner);
            if k == inner.0 {
                assert(outer.contains_spec(OctantKey(k)) || k == outer.0);
            }
            if inner.contains_spec(OctantKey(k)) {
                if inner == outer {
                } else {
                    crate::octant_key::lemma_contains_trans(outer, inner, OctantKey(k));
                }
            }
        }
        assert(OctantMap::untouched(pre, mid, k));
        assert(OctantMap::untouched(mid, post, k));
    }
}

/// A direct mutation whose effect clauses only name `octant` and its
/// children respects the frame of `octant`.
proof fn lemma_subtree_frame(pre: OctantMap, post: OctantMap, octant: OctantKey)
    requires
        octant.wf(),
        post == pre || octant.spec_depth() < 19,
        post == pre
        || {
            // the subdivide shape
            &&& post.octants@.dom() == pre.octants@.dom()
                .insert(child_raw(octant.0, 0)).insert(child_raw(octant.0, 1))
                .insert(child_raw(octant.0, 2)).insert(child_raw(octant.0, 3))
                .insert(child_raw(octant.0, 4)).insert(child_raw(octant.0, 5))
                .insert(child_raw(octant.0, 6)).insert(child_raw(octant.0, 7))
            &&& (forall|k: u64| #[trigger] pre.octants@.contains_key(k) ==>
                post.octants@[k] == pre.octants@[k])
            &&& post.leaves@ == pre.leaves@
                .insert(child_raw(octant.0, 0)).insert(child_raw(octant.0, 1))
                .insert(child_raw(octant.0, 2)).insert(child_raw(octant.0, 3))
                .insert(child_raw(octant.0, 4)).insert(child_raw(octant.0, 5))
                .insert(child_raw(octant.0, 6)).insert(child_raw(octant.0, 7))
                .remove(octant.0)
        }
        || {
            // the collapse shape
            &&& post.octants@ == pre.octants@
                .remove(child_raw(octant.0, 0)).remove(child_raw(octant.0, 1))
                .remove(child_raw(octant.0, 2)).remove(child_raw(octant.0, 3))
                .remove(child_raw(octant.0, 4)).remove(child_raw(octant.0, 5))
                .remove(child_raw(octant.0, 6)).remove(child_raw(octant.0, 7))
            &&& post.leaves@ == pre.leaves@
                .remove(child_raw(octant.0, 0)).remove(child_raw(octant.0, 1))
                .remove(child_raw(octant.0, 2)).remove(child_raw(octant.0, 3))
                .remove(child_raw(octant.0, 4)).remove(child_raw(octant.0, 5))
                .remove(child_raw(octant.0, 6)).remove(child_raw(octant.0, 7))
                .insert(octant.0)
        },
    ensures
        OctantMap::frame_ok(pre, post, octant),
{
    if post == pre {
        return;
    }
    lemma_all_children_contained(octant);
    assert forall|k: u64| !(k == octant.0 || octant.contains_spec(OctantKey(k))) implies
        #[trigger] OctantMap::untouched(pre, post, k) by {
        assert forall|i: int| 0 <= i < 8 implies #[trigger] child_raw(octant.0, i) != k by {
            assert(octant.contains_spec(octant.spec_push(i as u8)));
            if child_raw(octant.0, i) == k {
                assert(octant.contains_spec(OctantKey(k)));
            }
        }
    }
}

/// Lift the frame and own-entry facts over one recursive child call.
proof fn lemma_child_step(
    pre: OctantMap,
    mid: OctantMap,
    post: OctantMap,
    octant: OctantKey,
    child: OctantKey,
)
    requires
        octant.wf(),
        child.wf(),
        octant.contains_spec(child),
        OctantMap::frame_ok(pre, mid, octant),
        OctantMap::frame_ok(mid, post, child),
        mid.octants@.contains_key(octant.0),
    ensures
        OctantMap::frame_ok(pre, post, octant),
        post.octants@.contains_key(octant.0),
        post.octants@[octant.0] == mid.octants@[octant.0],
        forall|c2: u64| !(c2 == child.0 || child.contains_spec(OctantKey(c2))) ==>
            (#[trigger] post.octants@.contains_key(c2) == mid.octants@.contains_key(c2)
                && (mid.octants@.contains_key(c2) ==> post.octants@[c2] == mid.octants@[c2])),
    {
    lemma_frame_compose(pre, mid, post, octant, child);
    crate::octant_key::lemma_contains_deeper(octant, child);
    assert(!(octant.0 == child.0 || child.contains_spec(OctantKey(octant.0)))) by {
        if octant.0 == child.0 {
            assert(octant.spec_depth() < child.spec_depth());
            assert(OctantKey(octant.0).spec_depth() == OctantKey(child.0).spec_depth());
        }
        if child.contains_spec(OctantKey(octant.0)) {
            crate::octant_key::lemma_contains_deeper(child, OctantKey(octant.0));
        }
    }
    assert(OctantMap::untouched(mid, post, octant.0));
    assert forall|c2: u64| !(c2 == child.0 || child.contains_spec(OctantKey(c2))) implies
        (#[trigger] post.octants@.contains_key(c2) == mid.octants@.contains_key(c2)
            && (mid.octants@.contains_key(c2) ==> post.octants@[c2] == mid.octants@[c2])) by {
        assert(OctantMap::untouched(mid, post, c2));
    }
}

/// The cell tree materialized from the density map, rooted at `k`: a
/// leaf when `k`'s first child is absent, else the 8 children's trees.
#[verifier::opaque]
pub open spec fn map_cell_model(m: Map<u64, [i64; 8]>, k: OctantKey) -> CellModel
    decreases 19 - k.spec_depth(),
        via map_cell_model_decreases
{
    let values = if m.contains_key(k.0) { cell_values(m[k.0]) } else { Seq::empty() };
    if k.spec_depth() < 19 && m.contains_key(child_raw(k.0, 0)) {
        CellModel {
            values,
            children: Some(seq![
                map_cell_model(m, k.spec_push(0)),
                map_cell_model(m, k.spec_push(1)),
                map_cell_model(m, k.spec_push(2)),
                map_cell_model(m, k.spec_push(3)),
                map_cell_model(m, k.spec_push(4)),
                map_cell_model(m, k.spec_push(5)),
                map_cell_model(m, k.spec_push(6)),
                map_cell_model(m, k.spec_push(7)),
            ]),
        }
    } else {
        CellModel { values, children: None }
    }
}

#[via_fn]
proof fn map_cell_model_decreases(m: Map<u64, [i64; 8]>, k: OctantKey) {
    if k.spec_depth() < 19 && m.contains_key(child_raw(k.0, 0)) {
        lemma_push_depths(k);
    }
}

/// Each push from a sub-19 depth lands one level deeper.
proof fn lemma_push_depths(k: OctantKey)
    requires k.spec_depth() < 19,
    ensures
        forall|i: u8| i < 8 ==>
            (#[trigger] k.spec_push(i)).spec_depth() == k.spec_depth() + 1,
{
    assert forall|i: u8| i < 8 implies
        (#[trigger] k.spec_push(i)).spec_depth() == k.spec_depth() + 1 by {
        let k1 = crate::packed::set3_spec(k.0, (3 * k.spec_depth()) as u64, i as u64);
        crate::packed::lemma_set_depth5(k1, (k.spec_depth() + 1) as u64);
    }
}

impl OctantMap {
    /// Generate the triangles of the subtree below `octant` into
    /// `faces`: leaves (and cells at the depth cap) are marched with the
    /// cell's box inside the unit cube, interior cells recurse in
    /// Z-order.
    #[verifier::rlimit(100)]
    fn mesh_at(
        &self,
        faces: &mut Vec<Triangle>,
        octant: OctantKey,
        max_depth: u8,
        tables: &MarchTables,
    )
        requires
            self.cells_ok(),
            octant.wf(),
            self.octants@.contains_key(octant.0),
            tables.wf(),
        ensures
            final(faces)@ == old(faces)@ + mesh_model(map_cell_model(self.octants@, octant),
                aabb_of_path(octant.path()), octant.spec_depth() as int, max_depth as int,
                *tables),
        decreases 19 - octant.spec_depth(), 1nat,
    {
        let ghost mm = map_cell_model(self.octants@, octant);
        let depth = octant.depth();
        let aabb = octant.aabb();
        if depth < max_depth && depth < OCTANT_KEY_MAX_DEPTH && self.has_children(octant) {
            proof {
                lemma_group_present(*self, octant);
                lemma_push_depths(octant);
            }
            self.mesh_children_at(faces, octant, max_depth, tables);
            proof {
                reveal(mesh_model);
                reveal(map_cell_model);
                assert(next_depth(depth as int) == depth + 1);
                assert(faces@ =~= old(faces)@ + mesh_model(mm, aabb_of_path(octant.path()),
                    depth as int, max_depth as int, *tables));
            }
        } else {
            let vals = self.values_of(octant);
            proof {
                assert forall|i: int| 0 <= i < 8 implies
                    in_unit_range(#[trigger] vals[i] as int) by {
                    assert(in_unit_range(self.octants@[octant.0][i] as int));
                }
            }
            march_leaf(&vals, faces, aabb, tables);
            proof {
                reveal(mesh_model);
                reveal(map_cell_model);
                assert(crate::marching_cubes::density_seq(vals@) =~= mm.values);
                if depth < max_depth && depth < 19 {
                    assert(!self.octants@.contains_key(child_raw(octant.0, 0)));
                    assert(mm.children is None);
                }
                assert(faces@ == old(faces)@ + mesh_model(mm, aabb_of_path(octant.path()),
                    depth as int, max_depth as int, *tables));
            }
        }
    }


    /// Generate the triangles of `octant`'s 8 children, in Z-order.
    #[verifier::rlimit(100)]
    fn mesh_children_at(
        &self,
        faces: &mut Vec<Triangle>,
        octant: OctantKey,
        max_depth: u8,
        tables: &MarchTables,
    )
        requires
            self.cells_ok(),
            octant.wf(),
            octant.spec_depth() < 19,
            forall|i: int| 0 <= i < 8 ==>
                self.octants@.contains_key(#[trigger] child_raw(octant.0, i)),
            tables.wf(),
        ensures
            ({
                let m = self.octants@;
                let aabb = aabb_of_path(octant.path());
                let nd = octant.spec_depth() + 1;
                final(faces)@ == old(faces)@
                    + mesh_model(map_cell_model(m, octant.spec_push(0)), aabb.octree_child_spec(0), nd as int, max_depth as int, *tables)
                    + mesh_model(map_cell_model(m, octant.spec_push(1)), aabb.octree_child_spec(1), nd as int, max_depth as int, *tables)
                    + mesh_model(map_cell_model(m, octant.spec_push(2)), aabb.octree_child_spec(2), nd as int, max_depth as int, *tables)
                    + mesh_model(map_cell_model(m, octant.spec_push(3)), aabb.octree_child_spec(3), nd as int, max_depth as int, *tables)
                    + mesh_model(map_cell_model(m, octant.spec_push(4)), aabb.octree_child_spec(4), nd as int, max_depth as int, *tables)
                    + mesh_model(map_cell_model(m, octant.spec_push(5)), aabb.octree_child_spec(5), nd as int, max_depth as int, *tables)
                    + mesh_model(map_cell_model(m, octant.spec_push(6)), aabb.octree_child_spec(6), nd as int, max_depth as int, *tables)
                    + mesh_model(map_cell_model(m, octant.spec_push(7)), aabb.octree_child_spec(7), nd as int, max_depth as int, *tables)
            }),
        decreases 19 - octant.spec_depth(), 0nat,
    {
        let c0 = octant.child(0);
        let c1 = octant.child(1);
        let c2 = octant.child(2);
        let c3 = octant.child(3);
        let c4 = octant.child(4);
        let c5 = octant.child(5);
        let c6 = octant.child(6);
        let c7 = octant.child(7);
        proof {
            lemma_push_depths(octant);
            assert(c0.0 == child_raw(octant.0, 0) && c1.0 == child_raw(octant.0, 1)
                && c2.0 == child_raw(octant.0, 2) && c3.0 == child_raw(octant.0, 3)
                && c4.0 == child_raw(octant.0, 4) && c5.0 == child_raw(octant.0, 5)
                && c6.0 == child_raw(octant.0, 6) && c7.0 == child_raw(octant.0, 7));
            assert forall|i: u8| i < 8 implies
                aabb_of_path((#[trigger] octant.spec_push(i)).path())
                    == aabb_of_path(octant.path()).octree_child_spec(i as int) by {
                lemma_child_deeper(octant, i);
                let p = octant.spec_push(i).path();
                assert(p =~= octant.path().push(i as u64));
                assert(p.drop_last() =~= octant.path());
            }
        }
        self.mesh_at(faces, c0, max_depth, tables);
        self.mesh_at(faces, c1, max_depth, tables);
        self.mesh_at(faces, c2, max_depth, tables);
        self.mesh_at(faces, c3, max_depth, tables);
        self.mesh_at(faces, c4, max_depth, tables);
        self.mesh_at(faces, c5, max_depth, tables);
        self.mesh_at(faces, c6, max_depth, tables);
        self.mesh_at(faces, c7, max_depth, tables);
    }

    /// Uses Marching Cubes to generate the whole map's mesh with the
    /// given tables, down to `max_depth`, inside the unit cube.
    pub fn generate_mesh(&self, max_depth: u8, tables: &MarchTables)
        -> (r: crate::mesh::UnindexedMesh)
        requires
            self.wf(),
            tables.wf(),
        ensures
            r.faces@ == mesh_model(map_cell_model(self.octants@, OctantKey(0)),
                AABB::unit_cube_spec(), 0, max_depth as int, *tables),
    {
        let root = OctantKey::root();
        let mut faces: Vec<Triangle> = Vec::new();
        proof {
            assert(root.path() =~= Seq::<u64>::empty());
        }
        self.mesh_at(&mut faces, root, max_depth, tables);
        crate::mesh::UnindexedMesh { faces }
    }
}

} // verus!

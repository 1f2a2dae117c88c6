//! A sparse voxel octree of density samples, sculpted by tools and
//! extracted as a triangle mesh by Marching Cubes.
//!
//! Every mutation is specified against a mathematical model of the tree
//! (`CellModel`), and `apply_model` is the exact state machine the
//! sculpting pass follows: evaluate the tool at the 8 corners, combine
//! with the action, subdivide a leaf that needs more resolution, recurse
//! into children, and collapse children that became uniform.

use vstd::prelude::*;
use crate::aabb::{AABB, Vec3i};
use crate::action::{Action, apply_value_spec};
use crate::fixed::{UNIT, in_unit_range};
use crate::marching_cubes::{MarchTables, Triangle, march_cube, march_spec, density_seq};
use crate::tool::ToolFunc;
use crate::utils::{grid_base, grid_point, subdivide_cell};

verus! {

/// The mathematical shape of one octree cell: 8 corner densities and,
/// for an interior cell, 8 children.
#[verifier::ext_equal]
pub ghost struct CellModel {
    pub values: Seq<int>,
    pub children: Option<Seq<CellModel>>,
}

/// Well-formed cell: 8 clamped corner densities, and 8 well-formed
/// children when subdivided.
pub open spec fn cell_wf(m: CellModel) -> bool
    decreases m,
{
    &&& m.values.len() == 8
    &&& (forall|i: int| 0 <= i < 8 ==> in_unit_range(#[trigger] m.values[i]))
    &&& match m.children {
        None => true,
        Some(cs) => cs.len() == 8 && (forall|i: int| 0 <= i < 8 ==> cell_wf(#[trigger] cs[i])),
    }
}

/// Whether any two adjacent corners (in Z-order) carry opposite signs,
/// that is, whether the isosurface crosses the cell.
pub open spec fn diff_signs_spec(values: Seq<int>) -> bool {
    ||| (values[0] < 0) != (values[1] < 0)
    ||| (values[1] < 0) != (values[2] < 0)
    ||| (values[2] < 0) != (values[3] < 0)
    ||| (values[3] < 0) != (values[4] < 0)
    ||| (values[4] < 0) != (values[5] < 0)
    ||| (values[5] < 0) != (values[6] < 0)
    ||| (values[6] < 0) != (values[7] < 0)
}

/// The cell scale handed to tools: the cell's edge length, at least 1.
pub open spec fn scale_of(cell_aabb: AABB) -> i64 {
    if cell_aabb.size.x >= 1 { cell_aabb.size.x } else { 1 }
}

/// The densities after evaluating the tool at the 8 cell corners and
/// combining each with the old value through the action.
pub open spec fn new_values_spec<F: ToolFunc>(
    tool: F,
    values: Seq<int>,
    action: Action,
    cell_aabb: AABB,
) -> Seq<int> {
    Seq::new(8, |i: int| apply_value_spec(
        action,
        values[i],
        tool.value_spec(cell_aabb.corner_spec(i), scale_of(cell_aabb)),
    ))
}

/// The subdivision rule: a convex tool splits a leaf when the surface
/// crosses it or the check box (tool box for Place, area of effect for
/// Remove) reaches into it; a concave tool splits wherever its area of
/// effect touches.
pub open spec fn should_subdivide_spec<F: ToolFunc>(
    tool: F,
    newvals: Seq<int>,
    action: Action,
    tool_aabb: AABB,
    aoe_aabb: AABB,
    cell_aabb: AABB,
) -> bool {
    let check = match action {
        Action::Remove => aoe_aabb,
        Action::Place => tool_aabb,
    };
    if !tool.spec_is_concave() {
        ||| diff_signs_spec(newvals)
        ||| check.intersect_spec(cell_aabb) is ContainedBy
        ||| check.intersect_spec(cell_aabb) is Intersects
    } else {
        diff_signs_spec(newvals) || !(aoe_aabb.intersect_spec(cell_aabb) is DoesNotIntersect)
    }
}

/// The fresh leaf child `j` of a cell with corner densities `values`,
/// corners interpolated through the 27-point grid.
pub open spec fn leaf_child_model(values: Seq<int>, j: int) -> CellModel {
    CellModel {
        values: Seq::new(8, |k: int| grid_point(values, grid_base(j) + grid_base(k))),
        children: None,
    }
}

/// The collapse rule: all 8 children are leaves and none of them crosses
/// the isosurface.
pub open spec fn collapse_spec(cs: Seq<CellModel>) -> bool {
    forall|i: int| 0 <= i < 8 ==> (#[trigger] cs[i]).children is None
        && !diff_signs_spec(cs[i].values)
}

/// Depth of a child cell, saturating at the deepest representable level.
pub open spec fn next_depth(depth: int) -> int {
    if depth < 255 { depth + 1 } else { depth }
}

/// Remaining levels of subdivision below `depth`.
pub open spec fn fuel_of(depth: int, max_depth: int) -> nat {
    if depth < max_depth { (max_depth - depth) as nat } else { 0 }
}

/// The exact result of one sculpting pass over a cell: new corner
/// densities from the action, subdivision of a leaf that needs more
/// resolution, recursion into the (old or fresh) children, and collapse
/// of children that came out as uniform leaves.
#[verifier::opaque]
pub open spec fn apply_model<F: ToolFunc>(
    tool: F,
    m: CellModel,
    tool_aabb: AABB,
    aoe_aabb: AABB,
    action: Action,
    cell_aabb: AABB,
    depth: int,
    max_depth: int,
) -> CellModel
    decreases fuel_of(depth, max_depth), m,
        via apply_model_decreases::<F>
{
    let newvals = new_values_spec(tool, m.values, action, cell_aabb);
    match m.children {
        Some(cs) => {
            if cs.len() == 8 {
                let rec = apply_children_model(tool, cs, tool_aabb, aoe_aabb, action,
                    cell_aabb, depth, max_depth);
                if collapse_spec(rec) {
                    CellModel { values: newvals, children: None }
                } else {
                    CellModel { values: newvals, children: Some(rec) }
                }
            } else {
                CellModel { values: newvals, children: Some(cs) }
            }
        },
        None => {
            if depth < max_depth && max_depth <= 255
                && should_subdivide_spec(tool, newvals, action, tool_aabb, aoe_aabb, cell_aabb) {
                let cs = Seq::new(8, |j: int| leaf_child_model(m.values, j));
                let rec = apply_children_model(tool, cs, tool_aabb, aoe_aabb, action,
                    cell_aabb, depth, max_depth);
                if collapse_spec(rec) {
                    CellModel { values: newvals, children: None }
                } else {
                    CellModel { values: newvals, children: Some(rec) }
                }
            } else {
                CellModel { values: newvals, children: None }
            }
        },
    }
}

#[via_fn]
proof fn apply_model_decreases<F: ToolFunc>(
    tool: F,
    m: CellModel,
    tool_aabb: AABB,
    aoe_aabb: AABB,
    action: Action,
    cell_aabb: AABB,
    depth: int,
    max_depth: int,
) {
    match m.children {
        Some(cs) => {
            assert(decreases_to!(m => m.children));
            assert(decreases_to!(m.children => cs));
            assert(decreases_to!(m => cs));
        },
        None => {},
    }
}

/// The 8 children after the sculpting pass recursed into each of them.
pub open spec fn apply_children_model<F: ToolFunc>(
    tool: F,
    cs: Seq<CellModel>,
    tool_aabb: AABB,
    aoe_aabb: AABB,
    action: Action,
    cell_aabb: AABB,
    depth: int,
    max_depth: int,
) -> Seq<CellModel>
    decreases fuel_of(next_depth(depth), max_depth), cs,
{
    if cs.len() == 8 {
        seq![
            apply_model(tool, cs[0], tool_aabb, aoe_aabb, action,
                cell_aabb.octree_child_spec(0), next_depth(depth), max_depth),
            apply_model(tool, cs[1], tool_aabb, aoe_aabb, action,
                cell_aabb.octree_child_spec(1), next_depth(depth), max_depth),
            apply_model(tool, cs[2], tool_aabb, aoe_aabb, action,
                cell_aabb.octree_child_spec(2), next_depth(depth), max_depth),
            apply_model(tool, cs[3], tool_aabb, aoe_aabb, action,
                cell_aabb.octree_child_spec(3), next_depth(depth), max_depth),
            apply_model(tool, cs[4], tool_aabb, aoe_aabb, action,
                cell_aabb.octree_child_spec(4), next_depth(depth), max_depth),
            apply_model(tool, cs[5], tool_aabb, aoe_aabb, action,
                cell_aabb.octree_child_spec(5), next_depth(depth), max_depth),
            apply_model(tool, cs[6], tool_aabb, aoe_aabb, action,
                cell_aabb.octree_child_spec(6), next_depth(depth), max_depth),
            apply_model(tool, cs[7], tool_aabb, aoe_aabb, action,
                cell_aabb.octree_child_spec(7), next_depth(depth), max_depth),
        ]
    } else {
        Seq::empty()
    }
}

/// The triangle soup of one cell: leaves (and cells at the depth cap)
/// run Marching Cubes; interior cells above the cap concatenate their
/// children's triangles in Z-order.
#[verifier::opaque]
pub open spec fn mesh_model(
    m: CellModel,
    cell_aabb: AABB,
    depth: int,
    max_depth: int,
    tables: MarchTables,
) -> Seq<Triangle>
    decreases m,
{
    let own = march_spec(
        Seq::new(8, |i: int| cell_aabb.corner_spec(i)),
        m.values,
        tables,
    );
    match m.children {
        None => own,
        Some(cs) => {
            if depth < max_depth && cs.len() == 8 {
                mesh_model(cs[0], cell_aabb.octree_child_spec(0), next_depth(depth), max_depth, tables)
                    + mesh_model(cs[1], cell_aabb.octree_child_spec(1), next_depth(depth), max_depth, tables)
                    + mesh_model(cs[2], cell_aabb.octree_child_spec(2), next_depth(depth), max_depth, tables)
                    + mesh_model(cs[3], cell_aabb.octree_child_spec(3), next_depth(depth), max_depth, tables)
                    + mesh_model(cs[4], cell_aabb.octree_child_spec(4), next_depth(depth), max_depth, tables)
                    + mesh_model(cs[5], cell_aabb.octree_child_spec(5), next_depth(depth), max_depth, tables)
                    + mesh_model(cs[6], cell_aabb.octree_child_spec(6), next_depth(depth), max_depth, tables)
                    + mesh_model(cs[7], cell_aabb.octree_child_spec(7), next_depth(depth), max_depth, tables)
            } else {
                own
            }
        }
    }
}

/// A single octant within a [`NaiveOctree`].
pub struct NaiveOctreeCell {
    pub values: [i64; 8],
    pub children: Option<Vec<NaiveOctreeCell>>,
}

/// The model of a sequence of cells.
pub open spec fn children_models(s: Seq<NaiveOctreeCell>) -> Seq<CellModel>
    decreases s,
{
    if s.len() == 0 {
        Seq::empty()
    } else {
        children_models(s.subrange(0, s.len() - 1)).push(s[s.len() - 1]@)
    }
}

impl View for NaiveOctreeCell {
    type V = CellModel;

    open spec fn view(&self) -> CellModel
        decreases self,
    {
        CellModel {
            values: density_seq(self.values@),
            children: match self.children {
                None => None,
                Some(v) => Some(children_models(v@)),
            },
        }
    }
}

/// Each modelled child is the model of the corresponding cell.
pub proof fn lemma_children_models(s: Seq<NaiveOctreeCell>)
    ensures
        children_models(s).len() == s.len(),
        forall|i: int| 0 <= i < s.len() ==> children_models(s)[i] == (#[trigger] s[i])@,
    decreases s.len(),
{
    if s.len() > 0 {
        let sub = s.subrange(0, s.len() - 1);
        lemma_children_models(sub);
        assert(children_models(s) == children_models(sub).push(s[s.len() - 1]@));
        assert forall|i: int| 0 <= i < s.len() implies children_models(s)[i] == (#[trigger] s[i])@ by {
            if i < s.len() - 1 {
                assert(sub[i] == s[i]);
                assert(children_models(s)[i] == children_models(sub)[i]);
            } else {
                assert(i == s.len() - 1);
            }
        }
    }
}

impl NaiveOctreeCell {
    /// An empty leaf cell: every corner at the lowest density.
    pub fn new_leaf() -> (r: NaiveOctreeCell)
        ensures
            r@ == (CellModel { values: Seq::new(8, |i: int| -(UNIT as int)), children: None::<Seq<CellModel>> }),
            cell_wf(r@),
    {
        let r = NaiveOctreeCell {
            values: [-UNIT, -UNIT, -UNIT, -UNIT, -UNIT, -UNIT, -UNIT, -UNIT],
            children: None,
        };
        proof {
            assert(r@.values =~= Seq::new(8, |i: int| -(UNIT as int)));
        }
        r
    }

    /// Returns true if the cell has no children.
    pub fn is_leaf(&self) -> (r: bool)
        ensures r == (self@.children is None),
    {
        self.children.is_none()
    }

    /// Returns true if the cell has children.
    pub fn has_children(&self) -> (r: bool)
        ensures r == (self@.children is Some),
    {
        self.children.is_some()
    }

    /// Returns true if this cell intersects the isosurface: two adjacent
    /// corners carry opposite signs.
    pub fn intersects_surface(&self) -> (r: bool)
        ensures r == diff_signs_spec(self@.values),
    {
        let v = &self.values;
        let r = (v[0] < 0) != (v[1] < 0)
            || (v[1] < 0) != (v[2] < 0)
            || (v[2] < 0) != (v[3] < 0)
            || (v[3] < 0) != (v[4] < 0)
            || (v[4] < 0) != (v[5] < 0)
            || (v[5] < 0) != (v[6] < 0)
            || (v[6] < 0) != (v[7] < 0);
        r
    }

    /// Splits a leaf into 8 children whose corners interpolate this
    /// cell's corners through the 27-point grid; a no-op on an interior
    /// cell.
    pub fn subdivide_cell(&mut self)
        requires cell_wf(old(self)@),
        ensures
            final(self)@.values == old(self)@.values,
            old(self)@.children is Some ==> final(self)@ == old(self)@,
            old(self)@.children is None ==> final(self)@.children
                == Some(Seq::new(8, |j: int| leaf_child_model(old(self)@.values, j))),
            cell_wf(final(self)@),
    {
        if self.children.is_some() {
            return;
        }
        proof {
            assert forall|i: int| 0 <= i < 8 implies
                in_unit_range(#[trigger] self.values[i] as int) by {
                assert(self@.values[i] == self.values@[i] as int);
            }
        }
        let grids = subdivide_cell(&self.values);
        let kids = Self::leaves_from(&grids);
        proof {
            lemma_children_models(kids@);
            assert forall|j: int| 0 <= j < 8 implies
                children_models(kids@)[j] == leaf_child_model(self@.values, j) by {
                assert(kids@[j]@.values =~= leaf_child_model(self@.values, j).values);
            }
            assert(children_models(kids@) =~= Seq::new(8, |j: int| leaf_child_model(self@.values, j)));
        }
        self.children = Some(kids);
        proof {
            assert forall|j: int| 0 <= j < 8 implies
                cell_wf(#[trigger] self@.children.unwrap()[j]) by {}
        }
    }

    /// Build the 8 leaf children with the given corner grids.
    fn leaves_from(grids: &[[i64; 8]; 8]) -> (r: Vec<NaiveOctreeCell>)
        ensures
            r@.len() == 8,
            forall|j: int| 0 <= j < 8 ==> (#[trigger] r@[j]) == (NaiveOctreeCell {
                values: grids[j],
                children: None::<Vec<NaiveOctreeCell>>,
            }),
            forall|j: int| 0 <= j < 8 ==> ((#[trigger] r@[j])@.children is None
                && r@[j]@.values == density_seq(grids[j]@)),
    {
        let mut r: Vec<NaiveOctreeCell> = Vec::new();
        r.push(NaiveOctreeCell { values: grids[0], children: None });
        r.push(NaiveOctreeCell { values: grids[1], children: None });
        r.push(NaiveOctreeCell { values: grids[2], children: None });
        r.push(NaiveOctreeCell { values: grids[3], children: None });
        r.push(NaiveOctreeCell { values: grids[4], children: None });
        r.push(NaiveOctreeCell { values: grids[5], children: None });
        r.push(NaiveOctreeCell { values: grids[6], children: None });
        r.push(NaiveOctreeCell { values: grids[7], children: None });
        r
    }

    /// Removes this cell's children if they exist.
    pub fn collapse_cell(&mut self)
        ensures
            final(self)@ == (CellModel { values: old(self)@.values, children: None::<Seq<CellModel>> }),
    {
        self.children = None;
    }

    /// Evaluate the tool at the 8 corners of `cell_aabb` and combine
    /// with the old densities through the action.
    pub(crate) fn apply_corners<F: ToolFunc>(
        tool: &F,
        values: &[i64; 8],
        action: Action,
        cell_aabb: AABB,
    ) -> (r: [i64; 8])
        requires
            tool.wf(),
            cell_aabb.wf(),
            forall|i: int| 0 <= i < 8 ==> in_unit_range(#[trigger] values[i] as int),
        ensures
            density_seq(r@) == new_values_spec(*tool, density_seq(values@), action, cell_aabb),
            forall|i: int| 0 <= i < 8 ==> in_unit_range(#[trigger] r[i] as int),
    {
        let corners = cell_aabb.calculate_corners();
        let scale = if cell_aabb.size.x >= 1 { cell_aabb.size.x } else { 1 };
        proof {
            assert(scale == scale_of(cell_aabb));
        }
        let mut n0 = values[0];
        let mut n1 = values[1];
        let mut n2 = values[2];
        let mut n3 = values[3];
        let mut n4 = values[4];
        let mut n5 = values[5];
        let mut n6 = values[6];
        let mut n7 = values[7];
        action.apply_value(&mut n0, tool.value(corners[0], scale));
        action.apply_value(&mut n1, tool.value(corners[1], scale));
        action.apply_value(&mut n2, tool.value(corners[2], scale));
        action.apply_value(&mut n3, tool.value(corners[3], scale));
        action.apply_value(&mut n4, tool.value(corners[4], scale));
        action.apply_value(&mut n5, tool.value(corners[5], scale));
        action.apply_value(&mut n6, tool.value(corners[6], scale));
        action.apply_value(&mut n7, tool.value(corners[7], scale));
        let r = [n0, n1, n2, n3, n4, n5, n6, n7];
        proof {
            assert(density_seq(r@) =~= new_values_spec(*tool, density_seq(values@), action,
                cell_aabb));
        }
        r
    }

    /// Whether the subdivision rule fires for the given new densities.
    pub(crate) fn wants_split<F: ToolFunc>(
        tool: &F,
        newvals: &[i64; 8],
        action: Action,
        tool_aabb: AABB,
        aoe_aabb: AABB,
        cell_aabb: AABB,
    ) -> (r: bool)
        requires
            tool.wf(),
            tool_aabb.wf(),
            aoe_aabb.wf(),
            cell_aabb.wf(),
        ensures
            r == should_subdivide_spec(*tool, density_seq(newvals@), action, tool_aabb,
                aoe_aabb, cell_aabb),
    {
        let diff = (newvals[0] < 0) != (newvals[1] < 0)
            || (newvals[1] < 0) != (newvals[2] < 0)
            || (newvals[2] < 0) != (newvals[3] < 0)
            || (newvals[3] < 0) != (newvals[4] < 0)
            || (newvals[4] < 0) != (newvals[5] < 0)
            || (newvals[5] < 0) != (newvals[6] < 0)
            || (newvals[6] < 0) != (newvals[7] < 0);
        proof {
            assert(diff == diff_signs_spec(density_seq(newvals@)));
        }
        let check = match action {
            Action::Remove => aoe_aabb,
            Action::Place => tool_aabb,
        };
        if tool.is_convex() {
            diff || matches!(check.intersect(cell_aabb),
                crate::aabb::IntersectType::ContainedBy
                    | crate::aabb::IntersectType::Intersects(_))
        } else {
            diff || !matches!(aoe_aabb.intersect(cell_aabb),
                crate::aabb::IntersectType::DoesNotIntersect)
        }
    }

    /// One sculpting pass over an owned cell; returns the new cell,
    /// which is exactly `apply_model` of the old one.
    #[verifier::rlimit(100)]
    fn apply_cell<F: ToolFunc>(
        tool: &F,
        cell: NaiveOctreeCell,
        tool_aabb: AABB,
        aoe_aabb: AABB,
        action: Action,
        cell_aabb: AABB,
        depth: u8,
        max_depth: u8,
    ) -> (r: NaiveOctreeCell)
        requires
            tool.wf(),
            cell_wf(cell@),
            tool_aabb.wf(),
            aoe_aabb.wf(),
            cell_aabb.wf(),
        ensures
            r@ == apply_model(*tool, cell@, tool_aabb, aoe_aabb, action, cell_aabb,
                depth as int, max_depth as int),
            cell_wf(r@),
        decreases fuel_of(depth as int, max_depth as int), cell,
    {
        let ghost cell0 = cell;
        let ghost m = cell@;

        proof {
            assert(density_seq(cell.values@) == m.values);
            assert forall|i: int| 0 <= i < 8 implies
                in_unit_range(#[trigger] cell.values[i] as int) by {
                assert(m.values[i] == cell.values@[i] as int);
            }
        }
        let newvals = Self::apply_corners(tool, &cell.values, action, cell_aabb);
        let ghost nv = new_values_spec(*tool, m.values, action, cell_aabb);
        proof {
            assert(density_seq(newvals@) == nv);
            assert(nv.len() == 8);
        }
        let split_wanted = Self::wants_split(tool, &newvals, action, tool_aabb, aoe_aabb,
            cell_aabb);
        let subdividing = cell.children.is_none() && depth < max_depth && split_wanted;

        let kids_opt: Option<Vec<NaiveOctreeCell>> = if subdividing {
            proof {
                assert forall|i: int| 0 <= i < 8 implies
                    in_unit_range(#[trigger] cell.values[i] as int) by {
                    assert(m.values[i] == cell.values@[i] as int);
                }
            }
            let grids = subdivide_cell(&cell.values);
            Some(Self::leaves_from(&grids))
        } else {
            cell.children
        };

        match kids_opt {
            None => {
                let r = NaiveOctreeCell { values: newvals, children: None };
                proof {
                    reveal(apply_model);
                    let target = apply_model(*tool, m, tool_aabb, aoe_aabb, action, cell_aabb,
                        depth as int, max_depth as int);
                    assert(target == (CellModel { values: nv, children: None::<Seq<CellModel>> }));
                    assert(r@ == target);
                }
                r
            },
            Some(kvec) => {
                let ghost cs: Seq<CellModel> = if subdividing {
                    Seq::new(8, |j: int| leaf_child_model(m.values, j))
                } else {
                    children_models(cell0.children.unwrap()@)
                };
                proof {
                    lemma_children_models(kvec@);
                    if subdividing {
                        assert forall|j: int| 0 <= j < 8 implies
                            (#[trigger] kvec@[j])@ == cs[j] by {
                            assert(kvec@[j]@.values =~= leaf_child_model(m.values, j).values);
                            assert(kvec@[j]@ =~~= leaf_child_model(m.values, j));
                        }
                        assert forall|j: int| 0 <= j < 8 implies cell_wf(#[trigger] cs[j]) by {
                            assert forall|k: int| 0 <= k < 8 implies
                                in_unit_range(#[trigger] cs[j].values[k]) by {
                                assert(cs[j].values[k] == grid_point(m.values,
                                    grid_base(j) + grid_base(k)));
                            }
                        }
                    } else {
                        assert(kvec@ == cell0.children.unwrap()@);
                        assert forall|j: int| 0 <= j < 8 implies
                            (#[trigger] kvec@[j])@ == cs[j] && cell_wf(cs[j]) by {
                            assert(m.children.unwrap()[j] == kvec@[j]@);
                        }
                        assert(decreases_to!(cell0 => cell0.children));
                        assert(decreases_to!(cell0.children => cell0.children.unwrap()));
                        assert(decreases_to!(cell0 => cell0.children.unwrap()));
                    }
                }
                let r = Self::apply_into_children(tool, kvec, newvals, tool_aabb, aoe_aabb,
                    action, cell_aabb, depth, max_depth, Ghost(cs));
                proof {
                    reveal(apply_model);
                    let target = apply_model(*tool, m, tool_aabb, aoe_aabb, action, cell_aabb,
                        depth as int, max_depth as int);
                    let rec = apply_children_model(*tool, cs, tool_aabb, aoe_aabb, action,
                        cell_aabb, depth as int, max_depth as int);
                    assert(target == if collapse_spec(rec) {
                        CellModel { values: nv, children: None::<Seq<CellModel>> }
                    } else {
                        CellModel { values: nv, children: Some(rec) }
                    });
                    assert(r@ == target);
                }
                r
            },
        }
    }

    /// Recurse the sculpting pass into 8 children and reassemble the
    /// cell, collapsing if every child came back as a uniform leaf.
    #[verifier::rlimit(100)]
    fn apply_into_children<F: ToolFunc>(
        tool: &F,
        kvec: Vec<NaiveOctreeCell>,
        newvals: [i64; 8],
        tool_aabb: AABB,
        aoe_aabb: AABB,
        action: Action,
        cell_aabb: AABB,
        depth: u8,
        max_depth: u8,
        Ghost(cs): Ghost<Seq<CellModel>>,
    ) -> (r: NaiveOctreeCell)
        requires
            tool.wf(),
            tool_aabb.wf(),
            aoe_aabb.wf(),
            cell_aabb.wf(),
            kvec@.len() == 8,
            cs.len() == 8,
            forall|j: int| 0 <= j < 8 ==> (#[trigger] kvec@[j])@ == cs[j],
            forall|j: int| 0 <= j < 8 ==> cell_wf(#[trigger] cs[j]),
            forall|i: int| 0 <= i < 8 ==> in_unit_range(#[trigger] newvals[i] as int),
        ensures
            ({
                let rec = apply_children_model(*tool, cs, tool_aabb, aoe_aabb, action,
                    cell_aabb, depth as int, max_depth as int);
                r@ == if collapse_spec(rec) {
                    CellModel { values: density_seq(newvals@), children: None }
                } else {
                    CellModel { values: density_seq(newvals@), children: Some(rec) }
                }
            }),
            cell_wf(r@),
        decreases fuel_of(next_depth(depth as int), max_depth as int), kvec,
    {
        let mut kvec = kvec;
        let ghost kv = kvec@;
        let c7 = kvec.pop().unwrap();
        let c6 = kvec.pop().unwrap();
        let c5 = kvec.pop().unwrap();
        let c4 = kvec.pop().unwrap();
        let c3 = kvec.pop().unwrap();
        let c2 = kvec.pop().unwrap();
        let c1 = kvec.pop().unwrap();
        let c0 = kvec.pop().unwrap();
        proof {
            assert(c0 == kv[0] && c1 == kv[1] && c2 == kv[2] && c3 == kv[3]
                && c4 == kv[4] && c5 == kv[5] && c6 == kv[6] && c7 == kv[7]);
        }
        let nd = if depth < 255 { depth + 1 } else { depth };
        proof {
            assert(nd as int == next_depth(depth as int));
        }
        let r0 = Self::apply_cell(tool, c0, tool_aabb, aoe_aabb, action,
            cell_aabb.octree_child(0), nd, max_depth);
        let r1 = Self::apply_cell(tool, c1, tool_aabb, aoe_aabb, action,
            cell_aabb.octree_child(1), nd, max_depth);
        let r2 = Self::apply_cell(tool, c2, tool_aabb, aoe_aabb, action,
            cell_aabb.octree_child(2), nd, max_depth);
        let r3 = Self::apply_cell(tool, c3, tool_aabb, aoe_aabb, action,
            cell_aabb.octree_child(3), nd, max_depth);
        let r4 = Self::apply_cell(tool, c4, tool_aabb, aoe_aabb, action,
            cell_aabb.octree_child(4), nd, max_depth);
        let r5 = Self::apply_cell(tool, c5, tool_aabb, aoe_aabb, action,
            cell_aabb.octree_child(5), nd, max_depth);
        let r6 = Self::apply_cell(tool, c6, tool_aabb, aoe_aabb, action,
            cell_aabb.octree_child(6), nd, max_depth);
        let r7 = Self::apply_cell(tool, c7, tool_aabb, aoe_aabb, action,
            cell_aabb.octree_child(7), nd, max_depth);
        let ghost rec = apply_children_model(*tool, cs, tool_aabb, aoe_aabb, action,
            cell_aabb, depth as int, max_depth as int);
        proof {
            reveal(apply_model);
            reveal_with_fuel(apply_children_model, 1);
            assert(c0@ == cs[0]);
            assert(nd as int == next_depth(depth as int));
            assert(r0@ == apply_model(*tool, cs[0], tool_aabb, aoe_aabb, action,
                cell_aabb.octree_child_spec(0), next_depth(depth as int), max_depth as int));
            assert(rec == seq![
                apply_model(*tool, cs[0], tool_aabb, aoe_aabb, action,
                    cell_aabb.octree_child_spec(0), next_depth(depth as int), max_depth as int),
                apply_model(*tool, cs[1], tool_aabb, aoe_aabb, action,
                    cell_aabb.octree_child_spec(1), next_depth(depth as int), max_depth as int),
                apply_model(*tool, cs[2], tool_aabb, aoe_aabb, action,
                    cell_aabb.octree_child_spec(2), next_depth(depth as int), max_depth as int),
                apply_model(*tool, cs[3], tool_aabb, aoe_aabb, action,
                    cell_aabb.octree_child_spec(3), next_depth(depth as int), max_depth as int),
                apply_model(*tool, cs[4], tool_aabb, aoe_aabb, action,
                    cell_aabb.octree_child_spec(4), next_depth(depth as int), max_depth as int),
                apply_model(*tool, cs[5], tool_aabb, aoe_aabb, action,
                    cell_aabb.octree_child_spec(5), next_depth(depth as int), max_depth as int),
                apply_model(*tool, cs[6], tool_aabb, aoe_aabb, action,
                    cell_aabb.octree_child_spec(6), next_depth(depth as int), max_depth as int),
                apply_model(*tool, cs[7], tool_aabb, aoe_aabb, action,
                    cell_aabb.octree_child_spec(7), next_depth(depth as int), max_depth as int),
            ]);
            assert(rec.len() == 8);
            assert(r0@ == rec[0] && r1@ == rec[1] && r2@ == rec[2] && r3@ == rec[3]
                && r4@ == rec[4] && r5@ == rec[5] && r6@ == rec[6] && r7@ == rec[7]);
        }
        let all_ok = r0.is_leaf() && !r0.intersects_surface()
            && r1.is_leaf() && !r1.intersects_surface()
            && r2.is_leaf() && !r2.intersects_surface()
            && r3.is_leaf() && !r3.intersects_surface()
            && r4.is_leaf() && !r4.intersects_surface()
            && r5.is_leaf() && !r5.intersects_surface()
            && r6.is_leaf() && !r6.intersects_surface()
            && r7.is_leaf() && !r7.intersects_surface();
        proof {
            assert(all_ok == collapse_spec(rec)) by {
                if all_ok {
                    assert forall|i: int| 0 <= i < 8 implies
                        (#[trigger] rec[i]).children is None
                            && !diff_signs_spec(rec[i].values) by {
                        if i == 0 { assert(rec[i] == r0@); }
                        else if i == 1 { assert(rec[i] == r1@); }
                        else if i == 2 { assert(rec[i] == r2@); }
                        else if i == 3 { assert(rec[i] == r3@); }
                        else if i == 4 { assert(rec[i] == r4@); }
                        else if i == 5 { assert(rec[i] == r5@); }
                        else if i == 6 { assert(rec[i] == r6@); }
                        else { assert(rec[i] == r7@); }
                    }
                }
            }
        }
        if all_ok {
            let r = NaiveOctreeCell { values: newvals, children: None };
            proof {
                assert(r@.values =~= density_seq(newvals@));
            }
            r
        } else {
            let mut rv: Vec<NaiveOctreeCell> = Vec::new();
            rv.push(r0);
            rv.push(r1);
            rv.push(r2);
            rv.push(r3);
            rv.push(r4);
            rv.push(r5);
            rv.push(r6);
            rv.push(r7);
            let r = NaiveOctreeCell { values: newvals, children: Some(rv) };
            proof {
                lemma_children_models(rv@);
                assert(rv@[0] == r0 && rv@[1] == r1 && rv@[2] == r2 && rv@[3] == r3
                    && rv@[4] == r4 && rv@[5] == r5 && rv@[6] == r6 && rv@[7] == r7);
                assert(children_models(rv@) =~= rec);
                assert(r@ =~~= (CellModel { values: density_seq(newvals@), children: Some(rec) }));
                assert forall|i: int| 0 <= i < 8 implies cell_wf(#[trigger] rec[i]) by {
                    if i == 0 { assert(rec[i] == r0@); }
                    else if i == 1 { assert(rec[i] == r1@); }
                    else if i == 2 { assert(rec[i] == r2@); }
                    else if i == 3 { assert(rec[i] == r3@); }
                    else if i == 4 { assert(rec[i] == r4@); }
                    else if i == 5 { assert(rec[i] == r5@); }
                    else if i == 6 { assert(rec[i] == r6@); }
                    else { assert(rec[i] == r7@); }
                }
            }
            r
        }
    }

    /// Applies the tool to this cell's subtree with the given action,
    /// subdividing up to `max_depth` and collapsing cells that became
    /// uniform. The result is exactly `apply_model` of the old tree.
    pub fn apply_tool<F: ToolFunc>(
        &mut self,
        tool: &F,
        tool_aabb: AABB,
        aoe_aabb: AABB,
        action: Action,
        cell_aabb: AABB,
        current_depth: u8,
        max_depth: u8,
    )
        requires
            tool.wf(),
            cell_wf(old(self)@),
            tool_aabb.wf(),
            aoe_aabb.wf(),
            cell_aabb.wf(),
        ensures
            final(self)@ == apply_model(*tool, old(self)@, tool_aabb, aoe_aabb, action,
                cell_aabb, current_depth as int, max_depth as int),
            cell_wf(final(self)@),
    {
        let cell = NaiveOctreeCell { values: self.values, children: self.children.take() };
        proof {
            assert(cell@ =~~= old(self)@);
        }
        let r = Self::apply_cell(tool, cell, tool_aabb, aoe_aabb, action, cell_aabb,
            current_depth, max_depth);
        let NaiveOctreeCell { values, children } = r;
        self.values = values;
        self.children = children;
        proof {
            assert(self@ =~~= apply_model(*tool, old(self)@, tool_aabb, aoe_aabb, action,
                cell_aabb, current_depth as int, max_depth as int));
        }
    }

    /// Uses Marching Cubes to generate the subtree's triangles into
    /// `faces`: leaves (and cells at the depth cap) are marched, interior
    /// cells above the cap recurse in Z-order.
    pub fn generate_mesh(
        &self,
        faces: &mut Vec<Triangle>,
        current_depth: u8,
        max_depth: u8,
        cell_aabb: AABB,
        tables: &MarchTables,
    )
        requires
            cell_wf(self@),
            cell_aabb.wf(),
            tables.wf(),
        ensures
            final(faces)@ == old(faces)@ + mesh_model(self@, cell_aabb, current_depth as int,
                max_depth as int, *tables),
        decreases *self, 1nat,
    {
        if current_depth < max_depth {
            if self.children.is_some() {
                let nd = if current_depth < 255 { current_depth + 1 } else { current_depth };
                proof {
                    assert(nd as int == next_depth(current_depth as int));
                }
                match &self.children {
                    Some(v) => {
                        proof {
                            lemma_children_models(v@);
                            assert(self@.children.unwrap() == children_models(v@));
                            assert(children_models(v@).len() == 8);
                            assert forall|j: int| 0 <= j < 8 implies
                                cell_wf((#[trigger] v@[j])@) by {
                                assert(self@.children.unwrap()[j] == v@[j]@);
                            }
                        }
                        Self::mesh_children(v, faces, nd, max_depth, cell_aabb, tables);
                        proof {
                            reveal(mesh_model);
                            let cs = children_models(v@);
                            assert(faces@ == old(faces)@ + mesh_model(self@, cell_aabb,
                                current_depth as int, max_depth as int, *tables));
                        }
                        return;
                    },
                    None => {
                        proof {
                            assert(false);
                        }
                    },
                }
            }
        }
        proof {
            assert forall|i: int| 0 <= i < 8 implies
                in_unit_range(#[trigger] self.values[i] as int) by {
                assert(self@.values[i] == self.values@[i] as int);
            }
        }
        march_leaf(&self.values, faces, cell_aabb, tables);
        proof {
            reveal(mesh_model);
            assert(density_seq(self.values@) == self@.values);
            assert(faces@ == old(faces)@ + mesh_model(self@, cell_aabb, current_depth as int,
                max_depth as int, *tables));
        }
    }

    /// Generate the triangles of all 8 children, in Z-order.
    #[verifier::rlimit(100)]
    fn mesh_children(
        v: &Vec<NaiveOctreeCell>,
        faces: &mut Vec<Triangle>,
        nd: u8,
        max_depth: u8,
        cell_aabb: AABB,
        tables: &MarchTables,
    )
        requires
            v@.len() == 8,
            forall|j: int| 0 <= j < 8 ==> cell_wf((#[trigger] v@[j])@),
            cell_aabb.wf(),
            tables.wf(),
        ensures
            ({
                let cs = children_models(v@);
                final(faces)@ == old(faces)@
                    + mesh_model(cs[0], cell_aabb.octree_child_spec(0), nd as int, max_depth as int, *tables)
                    + mesh_model(cs[1], cell_aabb.octree_child_spec(1), nd as int, max_depth as int, *tables)
                    + mesh_model(cs[2], cell_aabb.octree_child_spec(2), nd as int, max_depth as int, *tables)
                    + mesh_model(cs[3], cell_aabb.octree_child_spec(3), nd as int, max_depth as int, *tables)
                    + mesh_model(cs[4], cell_aabb.octree_child_spec(4), nd as int, max_depth as int, *tables)
                    + mesh_model(cs[5], cell_aabb.octree_child_spec(5), nd as int, max_depth as int, *tables)
                    + mesh_model(cs[6], cell_aabb.octree_child_spec(6), nd as int, max_depth as int, *tables)
                    + mesh_model(cs[7], cell_aabb.octree_child_spec(7), nd as int, max_depth as int, *tables)
            }),
        decreases v, 0nat,
    {
        proof {
            lemma_children_models(v@);
        }
        let a0 = cell_aabb.octree_child(0);
        let a1 = cell_aabb.octree_child(1);
        let a2 = cell_aabb.octree_child(2);
        let a3 = cell_aabb.octree_child(3);
        let a4 = cell_aabb.octree_child(4);
        let a5 = cell_aabb.octree_child(5);
        let a6 = cell_aabb.octree_child(6);
        let a7 = cell_aabb.octree_child(7);
        v[0].generate_mesh(faces, nd, max_depth, a0, tables);
        v[1].generate_mesh(faces, nd, max_depth, a1, tables);
        v[2].generate_mesh(faces, nd, max_depth, a2, tables);
        v[3].generate_mesh(faces, nd, max_depth, a3, tables);
        v[4].generate_mesh(faces, nd, max_depth, a4, tables);
        v[5].generate_mesh(faces, nd, max_depth, a5, tables);
        v[6].generate_mesh(faces, nd, max_depth, a6, tables);
        v[7].generate_mesh(faces, nd, max_depth, a7, tables);
    }
}

/// March one cell's corners and append the triangles.
pub(crate) fn march_leaf(values: &[i64; 8], faces: &mut Vec<Triangle>, cell_aabb: AABB, tables: &MarchTables)
    requires
        cell_aabb.wf(),
        tables.wf(),
        forall|i: int| 0 <= i < 8 ==> in_unit_range(#[trigger] values[i] as int),
    ensures
        final(faces)@ == old(faces)@ + march_spec(
            Seq::new(8, |i: int| cell_aabb.corner_spec(i)),
            density_seq(values@),
            *tables,
        ),
{
    let corners = cell_aabb.calculate_corners();
    let tris = march_cube(&corners, values, tables);
    proof {
        assert(corners@ =~= Seq::new(8, |i: int| cell_aabb.corner_spec(i)));
    }
    append_triangles(faces, tris);
}

/// Move all triangles of `tris` to the end of `faces`.
fn append_triangles(faces: &mut Vec<Triangle>, tris: Vec<Triangle>)
    ensures
        final(faces)@ == old(faces)@ + tris@,
{
    let mut tris = tris;
    let ghost all = tris@;
    let mut i: usize = 0;
    proof {
        assert(old(faces)@ + all.take(0) =~= old(faces)@);
    }
    while i < tris.len()
        invariant
            i <= all.len(),
            tris@ == all,
            faces@ == old(faces)@ + all.take(i as int),
        decreases all.len() - i,
    {
        let t = tris[i];
        faces.push(t);
        proof {
            assert(old(faces)@ + all.take(i + 1) =~= (old(faces)@ + all.take(i as int)).push(all[i as int]));
        }
        i = i + 1;
    }
    proof {
        assert(all.take(all.len() as int) =~= all);
    }
}

/// A naive implementation of a sparse voxel octree, the whole terrain:
/// a root cell covering the cube from the origin with edge `scale`.
pub struct NaiveOctree {
    pub root: NaiveOctreeCell,
    pub scale: i64,
}

/// The terrain's bounding box: a cube at the origin with edge `scale`.
pub open spec fn terrain_aabb_spec(scale: i64) -> AABB {
    AABB {
        start: Vec3i { x: 0, y: 0, z: 0 },
        size: Vec3i { x: scale, y: scale, z: scale },
    }
}

/// A box clipped against the terrain: its overlap with the terrain where
/// they partially overlap, the terrain where it swallows the terrain,
/// and itself otherwise.
pub open spec fn clip_spec(terrain: AABB, b: AABB) -> AABB {
    match terrain.intersect_spec(b) {
        crate::aabb::IntersectType::DoesNotIntersect => b,
        crate::aabb::IntersectType::Intersects(o) => o,
        crate::aabb::IntersectType::ContainedBy => terrain,
        crate::aabb::IntersectType::Contains => b,
    }
}

/// The result of one whole-terrain sculpting pass: a no-op when the
/// clipped area of effect misses the terrain, or when the tool box
/// misses it and the action only places material; otherwise the
/// `apply_model` pass over the root with the clipped boxes.
pub open spec fn terrain_apply_spec<F: ToolFunc>(
    tool: F,
    root: CellModel,
    scale: i64,
    action: Action,
    max_depth: int,
) -> CellModel {
    let terrain = terrain_aabb_spec(scale);
    let aoe0 = tool.spec_aoe_aabb();
    let tool0 = tool.spec_tool_aabb();
    if terrain.intersect_spec(aoe0) is DoesNotIntersect {
        root
    } else if terrain.intersect_spec(tool0) is DoesNotIntersect && action is Place {
        root
    } else {
        apply_model(tool, root, clip_spec(terrain, tool0), clip_spec(terrain, aoe0), action,
            terrain, 0, max_depth)
    }
}

impl NaiveOctree {
    pub open spec fn wf(self) -> bool {
        &&& cell_wf(self.root@)
        &&& 1 <= self.scale <= crate::aabb::COORD_LIMIT
    }

    /// A terrain of the given edge length, entirely empty.
    pub fn new(scale: i64) -> (r: NaiveOctree)
        requires 1 <= scale <= crate::aabb::COORD_LIMIT,
        ensures
            r.wf(),
            r.scale == scale,
            r.root@ == (CellModel {
                values: Seq::new(8, |i: int| -(UNIT as int)),
                children: None::<Seq<CellModel>>,
            }),
    {
        NaiveOctree { root: NaiveOctreeCell::new_leaf(), scale }
    }

    /// Applies the tool to the terrain with the given action, clipping
    /// its boxes against the terrain, subdividing as needed up to
    /// `max_depth`.
    pub fn apply_tool<F: ToolFunc>(&mut self, tool: &F, action: Action, max_depth: u8)
        requires
            old(self).wf(),
            tool.wf(),
        ensures
            final(self).wf(),
            final(self).scale == old(self).scale,
            final(self).root@ == terrain_apply_spec(*tool, old(self).root@, old(self).scale,
                action, max_depth as int),
    {
        let terrain_aabb = AABB {
            start: Vec3i { x: 0, y: 0, z: 0 },
            size: Vec3i { x: self.scale, y: self.scale, z: self.scale },
        };
        let mut tool_aabb = tool.tool_aabb();
        let mut aoe_aabb = tool.aoe_aabb();
        proof {
            crate::aabb::lemma_overlap_wf(terrain_aabb, aoe_aabb);
            crate::aabb::lemma_overlap_wf(terrain_aabb, tool_aabb);
        }
        match terrain_aabb.intersect(aoe_aabb) {
            crate::aabb::IntersectType::DoesNotIntersect => {
                return;
            },
            crate::aabb::IntersectType::Intersects(new_aabb) => {
                aoe_aabb = new_aabb;
            },
            crate::aabb::IntersectType::ContainedBy => {
                aoe_aabb = terrain_aabb;
            },
            crate::aabb::IntersectType::Contains => {},
        }
        match terrain_aabb.intersect(tool_aabb) {
            crate::aabb::IntersectType::DoesNotIntersect => {
                if matches!(action, Action::Place) {
                    return;
                }
            },
            crate::aabb::IntersectType::Intersects(new_aabb) => {
                tool_aabb = new_aabb;
            },
            crate::aabb::IntersectType::ContainedBy => {
                tool_aabb = terrain_aabb;
            },
            crate::aabb::IntersectType::Contains => {},
        }
        self.root.apply_tool(tool, tool_aabb, aoe_aabb, action, terrain_aabb, 0, max_depth);
    }

    /// Uses Marching Cubes to generate the terrain's mesh with the given
    /// tables, down to `max_depth`.
    pub fn generate_mesh_with(&self, max_depth: u8, tables: &MarchTables)
        -> (r: crate::mesh::UnindexedMesh)
        requires
            self.wf(),
            tables.wf(),
        ensures
            r.faces@ == mesh_model(self.root@, terrain_aabb_spec(self.scale), 0,
                max_depth as int, *tables),
    {
        let terrain_aabb = AABB {
            start: Vec3i { x: 0, y: 0, z: 0 },
            size: Vec3i { x: self.scale, y: self.scale, z: self.scale },
        };
        let mut faces: Vec<Triangle> = Vec::new();
        self.root.generate_mesh(&mut faces, 0, max_depth, terrain_aabb, tables);
        crate::mesh::UnindexedMesh { faces }
    }

    /// Uses Marching Cubes to generate the terrain's mesh, building the
    /// validated classic tables first; by `lemma_classic_mesh_unique`
    /// the result is the same for every such table value.
    pub fn generate_mesh(&self, max_depth: u8) -> (r: crate::mesh::UnindexedMesh)
        requires
            self.wf(),
        ensures
            exists|t: MarchTables| #[trigger] crate::marching_cubes::classic_tables(t)
                && r.faces@ == mesh_model(self.root@, terrain_aabb_spec(self.scale), 0,
                    max_depth as int, t),
    {
        let tables = MarchTables::new();
        let r = self.generate_mesh_with(max_depth, &tables);
        proof {
            assert(crate::marching_cubes::classic_tables(tables)
                && r.faces@ == mesh_model(self.root@, terrain_aabb_spec(self.scale), 0,
                    max_depth as int, tables));
        }
        r
    }
}

/// The mesh of a cell tree depends on the tables only through the
/// triangle rows' contents.
pub proof fn lemma_mesh_model_tables(
    m: CellModel,
    cell_aabb: AABB,
    depth: int,
    max_depth: int,
    t1: MarchTables,
    t2: MarchTables,
)
    requires
        t1.tri@.len() == 256,
        t2.tri@.len() == 256,
        forall|c: int| 0 <= c < 256 ==> (#[trigger] t1.tri@[c])@ == (t2.tri@[c])@,
    ensures
        mesh_model(m, cell_aabb, depth, max_depth, t1)
            == mesh_model(m, cell_aabb, depth, max_depth, t2),
    decreases m,
{
    reveal(mesh_model);
    crate::marching_cubes::lemma_march_spec_tables(
        Seq::new(8, |i: int| cell_aabb.corner_spec(i)), m.values, t1, t2);
    match m.children {
        Some(cs) => {
            assert(decreases_to!(m => m.children));
            assert(decreases_to!(m.children => cs));
            if depth < max_depth && cs.len() == 8 {
                assert forall|i: int| 0 <= i < 8 implies
                    mesh_model(#[trigger] cs[i], cell_aabb.octree_child_spec(i),
                        next_depth(depth), max_depth, t1)
                        == mesh_model(cs[i], cell_aabb.octree_child_spec(i),
                            next_depth(depth), max_depth, t2) by {
                    lemma_mesh_model_tables(cs[i], cell_aabb.octree_child_spec(i),
                        next_depth(depth), max_depth, t1, t2);
                }
            }
        },
        None => {},
    }
}

/// Any two validated classic tables produce the same mesh: together
/// with `classic_tables` in `MarchTables::new`'s contract, the mesh of
/// a terrain is a single determined value.
pub proof fn lemma_classic_mesh_unique(
    m: CellModel,
    cell_aabb: AABB,
    depth: int,
    max_depth: int,
    t1: MarchTables,
    t2: MarchTables,
)
    requires
        crate::marching_cubes::classic_tables(t1),
        crate::marching_cubes::classic_tables(t2),
    ensures
        mesh_model(m, cell_aabb, depth, max_depth, t1)
            == mesh_model(m, cell_aabb, depth, max_depth, t2),
{
    lemma_mesh_model_tables(m, cell_aabb, depth, max_depth, t1, t2);
}

/// No cell of the tree retains 8 children that are all uniform leaves:
/// the collapse rule has nothing left to do anywhere in the subtree.
pub open spec fn fully_collapsed(m: CellModel) -> bool
    decreases m,
{
    match m.children {
        None => true,
        Some(cs) => cs.len() == 8 && !collapse_spec(cs)
            && (forall|i: int| 0 <= i < 8 ==> fully_collapsed(#[trigger] cs[i])),
    }
}

/// Collapse/subdivide inverse over the whole subtree: a sculpting pass
/// leaves no cell anywhere with 8 uniform leaf children — every region
/// sculpted back to uniform density returns to a single leaf.
#[verifier::rlimit(100)]
pub proof fn lemma_apply_fully_collapses<F: ToolFunc>(
    tool: F,
    m: CellModel,
    tool_aabb: AABB,
    aoe_aabb: AABB,
    action: Action,
    cell_aabb: AABB,
    depth: int,
    max_depth: int,
)
    requires
        cell_wf(m),
    ensures
        fully_collapsed(apply_model(tool, m, tool_aabb, aoe_aabb, action, cell_aabb, depth,
            max_depth)),
    decreases fuel_of(depth, max_depth), m, 0nat,
{
    reveal(apply_model);
    match m.children {
        Some(cs) => {
            assert(decreases_to!(m => m.children));
            assert(decreases_to!(m.children => cs));
            if cs.len() == 8 {
                lemma_children_fully_collapse(tool, cs, tool_aabb, aoe_aabb, action,
                    cell_aabb, depth, max_depth);
                reveal_with_fuel(apply_children_model, 1);
                let rec = apply_children_model(tool, cs, tool_aabb, aoe_aabb, action,
                    cell_aabb, depth, max_depth);
                assert(rec.len() == 8);
            }
        },
        None => {
            if depth < max_depth && max_depth <= 255
                && should_subdivide_spec(tool, new_values_spec(tool, m.values, action,
                    cell_aabb), action, tool_aabb, aoe_aabb, cell_aabb) {
                let cs = Seq::new(8, |j: int| leaf_child_model(m.values, j));
                assert forall|j: int| 0 <= j < 8 implies cell_wf(#[trigger] cs[j]) by {
                    assert forall|k: int| 0 <= k < 8 implies
                        in_unit_range(#[trigger] cs[j].values[k]) by {
                        crate::utils::lemma_grid_point_range(m.values,
                            grid_base(j) + grid_base(k));
                    }
                }
                lemma_children_fully_collapse(tool, cs, tool_aabb, aoe_aabb, action,
                    cell_aabb, depth, max_depth);
                reveal_with_fuel(apply_children_model, 1);
                let rec = apply_children_model(tool, cs, tool_aabb, aoe_aabb, action,
                    cell_aabb, depth, max_depth);
                assert(rec.len() == 8);
            }
        },
    }
}

/// Each recursed child of the pass comes out fully collapsed.
#[verifier::rlimit(100)]
proof fn lemma_children_fully_collapse<F: ToolFunc>(
    tool: F,
    cs: Seq<CellModel>,
    tool_aabb: AABB,
    aoe_aabb: AABB,
    action: Action,
    cell_aabb: AABB,
    depth: int,
    max_depth: int,
)
    requires
        cs.len() == 8,
        forall|i: int| 0 <= i < 8 ==> cell_wf(#[trigger] cs[i]),
    ensures
        forall|i: int| 0 <= i < 8 ==> fully_collapsed(
            #[trigger] apply_children_model(tool, cs, tool_aabb, aoe_aabb, action, cell_aabb,
                depth, max_depth)[i]),
    decreases fuel_of(next_depth(depth), max_depth), cs, 1nat,
{
    assert forall|i: int| 0 <= i < 8 implies fully_collapsed(
        #[trigger] apply_children_model(tool, cs, tool_aabb, aoe_aabb, action, cell_aabb,
            depth, max_depth)[i]) by {
        lemma_one_child_fully_collapses(tool, cs, tool_aabb, aoe_aabb, action, cell_aabb,
            depth, max_depth, i);
    }
}

/// One recursed child of the pass comes out fully collapsed.
#[verifier::rlimit(100)]
proof fn lemma_one_child_fully_collapses<F: ToolFunc>(
    tool: F,
    cs: Seq<CellModel>,
    tool_aabb: AABB,
    aoe_aabb: AABB,
    action: Action,
    cell_aabb: AABB,
    depth: int,
    max_depth: int,
    i: int,
)
    requires
        cs.len() == 8,
        0 <= i < 8,
        cell_wf(cs[i]),
    ensures
        fully_collapsed(apply_children_model(tool, cs, tool_aabb, aoe_aabb, action, cell_aabb,
            depth, max_depth)[i]),
    decreases fuel_of(next_depth(depth), max_depth), cs, 0nat,
{
    assert(decreases_to!(cs => cs[i]));
    lemma_apply_fully_collapses(tool, cs[i], tool_aabb, aoe_aabb, action,
        cell_aabb.octree_child_spec(i), next_depth(depth), max_depth);
    reveal(apply_model);
    reveal_with_fuel(apply_children_model, 1);
    let rec = apply_children_model(tool, cs, tool_aabb, aoe_aabb, action, cell_aabb,
        depth, max_depth);
    assert(rec[i] == apply_model(tool, cs[i], tool_aabb, aoe_aabb, action,
        cell_aabb.octree_child_spec(i), next_depth(depth), max_depth)) by {
        if i == 0 { } else if i == 1 { } else if i == 2 { } else if i == 3 { }
        else if i == 4 { } else if i == 5 { } else if i == 6 { } else { }
    }
}

/// Collapse/subdivide inverse: when a sculpting pass leaves every child
/// a leaf of one sign, the pass collapses the cell back to a leaf.
///
/// Law: sculpting a subdivided region to uniform density triggers the
/// collapse of its children.
pub proof fn lemma_apply_collapses<F: ToolFunc>(
    tool: F,
    m: CellModel,
    tool_aabb: AABB,
    aoe_aabb: AABB,
    action: Action,
    cell_aabb: AABB,
    depth: int,
    max_depth: int,
)
    requires
        m.children is Some,
        m.children.unwrap().len() == 8,
        collapse_spec(apply_children_model(tool, m.children.unwrap(), tool_aabb, aoe_aabb,
            action, cell_aabb, depth, max_depth)),
    ensures
        apply_model(tool, m, tool_aabb, aoe_aabb, action, cell_aabb, depth, max_depth).children
            is None,
{
    reveal(apply_model);
}

} // verus!

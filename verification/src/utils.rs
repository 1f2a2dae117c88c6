//! Corner interpolation: splitting a cube of 8 corner densities into 8
//! sub-cubes whose corners come from a virtual 3x3x3 grid of 27 points.

use vstd::prelude::*;
use crate::fixed::{in_unit_range, midpoint, midpoint_spec};
use crate::aabb::{Vec3i, corner_dx, corner_dy, corner_dz};

verus! {

/// Grid index (x + 3y + 9z, each coordinate 0..3) of corner `i` of the
/// sub-cube whose low corner sits at octant `i` of the grid.
pub open spec fn grid_base(i: int) -> int {
    corner_dx(i) + 3 * corner_dy(i) + 9 * corner_dz(i)
}

/// The value of grid point `i` of the virtual 3x3x3 refinement grid of a
/// cell with corner densities `c` (in Z-order): the cell's own corners
/// at the even positions, then edge midpoints, face centers and the
/// cell center by repeated midpoint interpolation.
pub open spec fn grid_point(c: Seq<int>, i: int) -> int {
    let p1 = midpoint_spec(c[0], c[1]);
    let p3 = midpoint_spec(c[0], c[2]);
    let p5 = midpoint_spec(c[1], c[3]);
    let p7 = midpoint_spec(c[2], c[3]);
    let p9 = midpoint_spec(c[0], c[4]);
    let p11 = midpoint_spec(c[1], c[5]);
    let p15 = midpoint_spec(c[2], c[6]);
    let p17 = midpoint_spec(c[3], c[7]);
    let p19 = midpoint_spec(c[4], c[5]);
    let p21 = midpoint_spec(c[4], c[6]);
    let p23 = midpoint_spec(c[5], c[7]);
    let p25 = midpoint_spec(c[6], c[7]);
    let p4 = midpoint_spec(p1, p7);
    let p10 = midpoint_spec(p9, p11);
    let p12 = midpoint_spec(p3, p21);
    let p14 = midpoint_spec(p5, p23);
    let p16 = midpoint_spec(p7, p25);
    let p22 = midpoint_spec(p19, p25);
    let p13 = midpoint_spec(p4, p22);
    if i == 0 { c[0] } else if i == 2 { c[1] } else if i == 6 { c[2] } else if i == 8 { c[3] }
    else if i == 18 { c[4] } else if i == 20 { c[5] } else if i == 24 { c[6] } else if i == 26 { c[7] }
    else if i == 1 { p1 } else if i == 3 { p3 } else if i == 5 { p5 } else if i == 7 { p7 }
    else if i == 9 { p9 } else if i == 11 { p11 } else if i == 15 { p15 } else if i == 17 { p17 }
    else if i == 19 { p19 } else if i == 21 { p21 } else if i == 23 { p23 } else if i == 25 { p25 }
    else if i == 4 { p4 } else if i == 10 { p10 } else if i == 12 { p12 } else if i == 14 { p14 }
    else if i == 16 { p16 } else if i == 22 { p22 } else { p13 }
}

/// Splits a cube of 8 corner densities into 8 cubes, interpolating the
/// corner values through the 27-point refinement grid. Child `j`'s
/// corner `k` is grid point `grid_base(j) + grid_base(k)`.
pub fn subdivide_cell(cell: &[i64; 8]) -> (r: [[i64; 8]; 8])
    requires
        forall|i: int| 0 <= i < 8 ==> in_unit_range(cell[i] as int),
    ensures
        forall|j: int, k: int| 0 <= j < 8 && 0 <= k < 8 ==>
            #[trigger] r[j][k] == grid_point(cell@.map_values(|v: i64| v as int), grid_base(j) + grid_base(k)),
        forall|j: int, k: int| 0 <= j < 8 && 0 <= k < 8 ==> in_unit_range(#[trigger] r[j][k] as int),
{
    let p0 = cell[0];
    let p2 = cell[1];
    let p6 = cell[2];
    let p8 = cell[3];
    let p18 = cell[4];
    let p20 = cell[5];
    let p24 = cell[6];
    let p26 = cell[7];

    let p1 = midpoint(p0, p2);
    let p3 = midpoint(p0, p6);
    let p5 = midpoint(p2, p8);
    let p7 = midpoint(p6, p8);
    let p9 = midpoint(p0, p18);
    let p11 = midpoint(p2, p20);
    let p15 = midpoint(p6, p24);
    let p17 = midpoint(p8, p26);
    let p19 = midpoint(p18, p20);
    let p21 = midpoint(p18, p24);
    let p23 = midpoint(p20, p26);
    let p25 = midpoint(p24, p26);

    let p4 = midpoint(p1, p7);
    let p10 = midpoint(p9, p11);
    let p12 = midpoint(p3, p21);
    let p14 = midpoint(p5, p23);
    let p16 = midpoint(p7, p25);
    let p22 = midpoint(p19, p25);

    let p13 = midpoint(p4, p22);

    let r = [
        [p0, p1, p3, p4, p9, p10, p12, p13],
        [p1, p2, p4, p5, p10, p11, p13, p14],
        [p3, p4, p6, p7, p12, p13, p15, p16],
        [p4, p5, p7, p8, p13, p14, p16, p17],
        [p9, p10, p12, p13, p18, p19, p21, p22],
        [p10, p11, p13, p14, p19, p20, p22, p23],
        [p12, p13, p15, p16, p21, p22, p24, p25],
        [p13, p14, p16, p17, p22, p23, p25, p26],
    ];
    proof {
        let c = cell@.map_values(|v: i64| v as int);
        assert(c[0] == cell[0] && c[1] == cell[1] && c[2] == cell[2] && c[3] == cell[3]
            && c[4] == cell[4] && c[5] == cell[5] && c[6] == cell[6] && c[7] == cell[7]);
        assert forall|j: int, k: int| 0 <= j < 8 && 0 <= k < 8 implies
            #[trigger] r[j][k] == grid_point(c, grid_base(j) + grid_base(k))
                && in_unit_range(r[j][k] as int) by {
            assert(grid_base(j) == if j == 0 { 0int } else if j == 1 { 1int } else if j == 2 { 3int }
                else if j == 3 { 4int } else if j == 4 { 9int } else if j == 5 { 10int }
                else if j == 6 { 12int } else { 13int });
            assert(grid_base(k) == if k == 0 { 0int } else if k == 1 { 1int } else if k == 2 { 3int }
                else if k == 3 { 4int } else if k == 4 { 9int } else if k == 5 { 10int }
                else if k == 6 { 12int } else { 13int });
        }
    }
    r
}

/// A midpoint of clamped densities is clamped.
pub proof fn lemma_midpoint_range(a: int, b: int)
    requires
        in_unit_range(a),
        in_unit_range(b),
    ensures
        in_unit_range(midpoint_spec(a, b)),
{
    vstd::arithmetic::div_mod::lemma_div_is_ordered(
        2 * (0 - crate::fixed::UNIT), a + b, 2);
    vstd::arithmetic::div_mod::lemma_div_is_ordered(a + b, 2 * crate::fixed::UNIT, 2);
    vstd::arithmetic::div_mod::lemma_div_multiples_vanish(0 - crate::fixed::UNIT, 2);
    vstd::arithmetic::div_mod::lemma_div_multiples_vanish(crate::fixed::UNIT as int, 2);
}

/// Every grid point of a clamped cell is clamped.
pub proof fn lemma_grid_point_range(c: Seq<int>, i: int)
    requires
        c.len() == 8,
        forall|k: int| 0 <= k < 8 ==> in_unit_range(#[trigger] c[k]),
    ensures
        in_unit_range(grid_point(c, i)),
{
    assert(in_unit_range(c[0]) && in_unit_range(c[1]) && in_unit_range(c[2])
        && in_unit_range(c[3]) && in_unit_range(c[4]) && in_unit_range(c[5])
        && in_unit_range(c[6]) && in_unit_range(c[7]));
    let p1 = midpoint_spec(c[0], c[1]);
    let p3 = midpoint_spec(c[0], c[2]);
    let p5 = midpoint_spec(c[1], c[3]);
    let p7 = midpoint_spec(c[2], c[3]);
    let p9 = midpoint_spec(c[0], c[4]);
    let p11 = midpoint_spec(c[1], c[5]);
    let p15 = midpoint_spec(c[2], c[6]);
    let p17 = midpoint_spec(c[3], c[7]);
    let p19 = midpoint_spec(c[4], c[5]);
    let p21 = midpoint_spec(c[4], c[6]);
    let p23 = midpoint_spec(c[5], c[7]);
    let p25 = midpoint_spec(c[6], c[7]);
    lemma_midpoint_range(c[0], c[1]);
    lemma_midpoint_range(c[0], c[2]);
    lemma_midpoint_range(c[1], c[3]);
    lemma_midpoint_range(c[2], c[3]);
    lemma_midpoint_range(c[0], c[4]);
    lemma_midpoint_range(c[1], c[5]);
    lemma_midpoint_range(c[2], c[6]);
    lemma_midpoint_range(c[3], c[7]);
    lemma_midpoint_range(c[4], c[5]);
    lemma_midpoint_range(c[4], c[6]);
    lemma_midpoint_range(c[5], c[7]);
    lemma_midpoint_range(c[6], c[7]);
    let p4 = midpoint_spec(p1, p7);
    let p10 = midpoint_spec(p9, p11);
    let p12 = midpoint_spec(p3, p21);
    let p14 = midpoint_spec(p5, p23);
    let p16 = midpoint_spec(p7, p25);
    let p22 = midpoint_spec(p19, p25);
    lemma_midpoint_range(p1, p7);
    lemma_midpoint_range(p9, p11);
    lemma_midpoint_range(p3, p21);
    lemma_midpoint_range(p5, p23);
    lemma_midpoint_range(p7, p25);
    lemma_midpoint_range(p19, p25);
    lemma_midpoint_range(p4, p22);
}

/// A midpoint of equal values is that value.
pub proof fn lemma_midpoint_same(v: int)
    ensures midpoint_spec(v, v) == v,
{
    vstd::arithmetic::div_mod::lemma_div_multiples_vanish(v, 2);
    assert(v + v == 2 * v);
}

/// Corner interpolation consistency: subdividing a uniform cell yields 8
/// children whose corners all carry the same value.
///
/// Law: if all 8 corners of a cell equal `v`, every one of the 27 grid
/// points — and so every corner of every child — equals `v`.
pub proof fn lemma_subdivide_uniform(c: Seq<int>, v: int)
    requires
        c.len() == 8,
        forall|i: int| 0 <= i < 8 ==> c[i] == v,
    ensures
        forall|i: int| 0 <= i < 27 ==> #[trigger] grid_point(c, i) == v,
{
    lemma_midpoint_same(v);
    assert forall|i: int| 0 <= i < 27 implies #[trigger] grid_point(c, i) == v by {
        assert(c[0] == v && c[1] == v && c[2] == v && c[3] == v
            && c[4] == v && c[5] == v && c[6] == v && c[7] == v);
    }
}

/// Direction a debug line extends from its anchor position.
#[derive(Clone, Copy, Debug, PartialEq, Eq, Structural)]
pub enum LineDir {
    Left,
    Right,
    Down,
    Up,
    Forward,
    Backward,
}

/// Corner of the beam cuboid that vertex `j` of the 36-vertex triangle
/// list names (12 triangles, two per face, in Z-order corners).
pub open spec fn beam_index(j: int) -> int {
    if j == 0 { 2 } else if j == 1 { 6 } else if j == 2 { 7 }
    else if j == 3 { 2 } else if j == 4 { 7 } else if j == 5 { 3 }
    else if j == 6 { 0 } else if j == 7 { 4 } else if j == 8 { 5 }
    else if j == 9 { 0 } else if j == 10 { 5 } else if j == 11 { 1 }
    else if j == 12 { 6 } else if j == 13 { 2 } else if j == 14 { 0 }
    else if j == 15 { 4 } else if j == 16 { 6 } else if j == 17 { 0 }
    else if j == 18 { 3 } else if j == 19 { 7 } else if j == 20 { 5 }
    else if j == 21 { 1 } else if j == 22 { 3 } else if j == 23 { 5 }
    else if j == 24 { 2 } else if j == 25 { 3 } else if j == 26 { 0 }
    else if j == 27 { 3 } else if j == 28 { 1 } else if j == 29 { 0 }
    else if j == 30 { 7 } else if j == 31 { 6 } else if j == 32 { 4 }
    else if j == 33 { 5 } else if j == 34 { 7 } else { 4 }
}

/// Corner `c` of the beam: a cube of edge `scale` centered on `pos`,
/// with the face looking along `dir` pulled out by `length`.
pub open spec fn beam_corner(pos: Vec3i, length: i64, scale: i64, dir: LineDir, c: int) -> Vec3i {
    let half = scale as int / 2;
    let bx = if corner_dx(c) == 1 { scale as int - half } else { 0 - half };
    let by = if corner_dy(c) == 1 { scale as int - half } else { 0 - half };
    let bz = if corner_dz(c) == 1 { scale as int - half } else { 0 - half };
    let ex = match dir {
        LineDir::Left => if corner_dx(c) == 0 { bx - length } else { bx },
        LineDir::Right => if corner_dx(c) == 1 { bx + length } else { bx },
        _ => bx,
    };
    let ey = match dir {
        LineDir::Down => if corner_dy(c) == 0 { by - length } else { by },
        LineDir::Up => if corner_dy(c) == 1 { by + length } else { by },
        _ => by,
    };
    let ez = match dir {
        LineDir::Backward => if corner_dz(c) == 0 { bz - length } else { bz },
        LineDir::Forward => if corner_dz(c) == 1 { bz + length } else { bz },
        _ => bz,
    };
    Vec3i {
        x: (pos.x + ex) as i64,
        y: (pos.y + ey) as i64,
        z: (pos.z + ez) as i64,
    }
}

/// The 36 vertices of a thin beam cuboid anchored at `pos`, extending
/// `length` along `dir` with a cross-section of edge `scale`, as 12
/// triangles.
pub fn line_vertices(pos: Vec3i, length: i64, scale: i64, line_dir: LineDir) -> (r: Vec<Vec3i>)
    requires
        pos.wf(),
        0 <= length <= crate::aabb::COORD_LIMIT,
        0 <= scale <= crate::aabb::COORD_LIMIT,
    ensures
        r@.len() == 36,
        forall|j: int| 0 <= j < 36 ==>
            #[trigger] r@[j] == beam_corner(pos, length, scale, line_dir, beam_index(j)),
{
    let half = scale / 2;
    let mut xs: [i64; 2] = [0 - half, scale - half];
    let mut ys: [i64; 2] = [0 - half, scale - half];
    let mut zs: [i64; 2] = [0 - half, scale - half];
    match line_dir {
        LineDir::Left => { xs[0] = xs[0] - length; },
        LineDir::Right => { xs[1] = xs[1] + length; },
        LineDir::Down => { ys[0] = ys[0] - length; },
        LineDir::Up => { ys[1] = ys[1] + length; },
        LineDir::Backward => { zs[0] = zs[0] - length; },
        LineDir::Forward => { zs[1] = zs[1] + length; },
    }
    let corners: [Vec3i; 8] = [
        Vec3i { x: pos.x + xs[0], y: pos.y + ys[0], z: pos.z + zs[0] },
        Vec3i { x: pos.x + xs[1], y: pos.y + ys[0], z: pos.z + zs[0] },
        Vec3i { x: pos.x + xs[0], y: pos.y + ys[1], z: pos.z + zs[0] },
        Vec3i { x: pos.x + xs[1], y: pos.y + ys[1], z: pos.z + zs[0] },
        Vec3i { x: pos.x + xs[0], y: pos.y + ys[0], z: pos.z + zs[1] },
        Vec3i { x: pos.x + xs[1], y: pos.y + ys[0], z: pos.z + zs[1] },
        Vec3i { x: pos.x + xs[0], y: pos.y + ys[1], z: pos.z + zs[1] },
        Vec3i { x: pos.x + xs[1], y: pos.y + ys[1], z: pos.z + zs[1] },
    ];
    proof {
        assert forall|c: int| 0 <= c < 8 implies
            #[trigger] corners[c] == beam_corner(pos, length, scale, line_dir, c) by {
            assert(corner_dx(c) == if c == 1 || c == 3 || c == 5 || c == 7 { 1int } else { 0int });
            assert(corner_dy(c) == if c == 2 || c == 3 || c == 6 || c == 7 { 1int } else { 0int });
            assert(corner_dz(c) == if c == 4 || c == 5 || c == 6 || c == 7 { 1int } else { 0int });
        }
    }
    let mut r: Vec<Vec3i> = Vec::new();
    r.push(corners[2]); r.push(corners[6]); r.push(corners[7]);
    r.push(corners[2]); r.push(corners[7]); r.push(corners[3]);
    r.push(corners[0]); r.push(corners[4]); r.push(corners[5]);
    r.push(corners[0]); r.push(corners[5]); r.push(corners[1]);
    r.push(corners[6]); r.push(corners[2]); r.push(corners[0]);
    r.push(corners[4]); r.push(corners[6]); r.push(corners[0]);
    r.push(corners[3]); r.push(corners[7]); r.push(corners[5]);
    r.push(corners[1]); r.push(corners[3]); r.push(corners[5]);
    r.push(corners[2]); r.push(corners[3]); r.push(corners[0]);
    r.push(corners[3]); r.push(corners[1]); r.push(corners[0]);
    r.push(corners[7]); r.push(corners[6]); r.push(corners[4]);
    r.push(corners[5]); r.push(corners[7]); r.push(corners[4]);
    proof {
        assert forall|j: int| 0 <= j < 36 implies
            #[trigger] r@[j] == beam_corner(pos, length, scale, line_dir, beam_index(j)) by {
            assert(r@[j] == corners[beam_index(j)]);
        }
    }
    r
}

} // verus!

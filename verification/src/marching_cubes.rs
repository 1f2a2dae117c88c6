//! Marching Cubes: from 8 signed corner densities to up to 5 triangles.
//!
//! The two classic lookup tables are carried as data and validated at
//! construction: `MarchTables::new` keeps, for every configuration, the
//! longest prefix of the triangle row whose entries are aligned triples
//! of edge slots flagged in the edge table, so extraction can rely on a
//! well-formed table without trusting the transcription.

use vstd::prelude::*;
use crate::aabb::Vec3i;
use crate::fixed::{in_unit_range, floor_div};

verus! {

/// First endpoint (Z-order corner) of cube edge `e`.
pub open spec fn edge_corner_a(e: int) -> int {
    if e == 0 { 0 } else if e == 1 { 0 } else if e == 2 { 4 } else if e == 3 { 1 }
    else if e == 4 { 2 } else if e == 5 { 2 } else if e == 6 { 6 } else if e == 7 { 3 }
    else if e == 8 { 0 } else if e == 9 { 4 } else if e == 10 { 5 } else { 1 }
}

/// Second endpoint (Z-order corner) of cube edge `e`.
pub open spec fn edge_corner_b(e: int) -> int {
    if e == 0 { 1 } else if e == 1 { 4 } else if e == 2 { 5 } else if e == 3 { 5 }
    else if e == 4 { 3 } else if e == 5 { 6 } else if e == 6 { 7 } else if e == 7 { 7 }
    else if e == 8 { 2 } else if e == 9 { 6 } else if e == 10 { 7 } else { 3 }
}

/// Where the isosurface crosses the segment `p1`-`p2` whose endpoint
/// densities are `v1` and `v2`: the interpolation parameter
/// `t = -v1 / (v2 - v1)` clamped to `[0, 1]`, with exact-zero endpoints
/// and equal densities resolved to an endpoint.
pub open spec fn vert_interp_spec(p1: Vec3i, v1: int, p2: Vec3i, v2: int) -> Vec3i {
    if v1 == 0 {
        p1
    } else if v2 == 0 {
        p2
    } else if v1 == v2 {
        p1
    } else {
        let n0 = -v1;
        let d0 = v2 - v1;
        let n = if d0 < 0 { -n0 } else { n0 };
        let d = if d0 < 0 { -d0 } else { d0 };
        if n <= 0 {
            p1
        } else if n >= d {
            p2
        } else {
            Vec3i {
                x: (p1.x + (p2.x - p1.x) * n / d) as i64,
                y: (p1.y + (p2.y - p1.y) * n / d) as i64,
                z: (p1.z + (p2.z - p1.z) * n / d) as i64,
            }
        }
    }
}

/// One coordinate of a clamped interpolation: `a + (b - a) * n / d`.
fn interp_coord(a: i64, b: i64, n: i64, d: i64) -> (r: i64)
    requires
        crate::aabb::coord_ok(a as int),
        crate::aabb::coord_ok(b as int),
        0 < n < d,
        d <= 0x400000,
    ensures
        r == a + (b - a) * (n as int) / (d as int),
        a <= b ==> a <= r <= b,
        b < a ==> b <= r <= a,
{
    let delta: i128 = (b as i128) - (a as i128);
    proof {
        assert(-0x400000_0000_0000_0000_0000 <= delta * (n as i128)
            <= 0x400000_0000_0000_0000_0000)
            by (nonlinear_arith)
            requires
                -0x8_0000_0000_0000 <= delta <= 0x8_0000_0000_0000,
                0 < n <= 0x400000,
        ;
    }
    let prod: i128 = delta * (n as i128);
    let q = floor_div(prod, d as i128);
    proof {
        let dd = d as int;
        if delta >= 0 {
            assert(0 <= prod) by (nonlinear_arith)
                requires delta >= 0, n > 0, prod == delta * n,
            ;
            assert(prod <= delta * dd) by (nonlinear_arith)
                requires prod == delta * n, n < dd, delta >= 0,
            ;
            vstd::arithmetic::div_mod::lemma_div_is_ordered(0, prod as int, dd);
            vstd::arithmetic::div_mod::lemma_div_is_ordered(prod as int, delta as int * dd, dd);
            vstd::arithmetic::div_mod::lemma_div_multiples_vanish(delta as int, dd);
        } else {
            assert(prod < 0) by (nonlinear_arith)
                requires delta < 0, n > 0, prod == delta * n,
            ;
            assert(delta * dd <= prod) by (nonlinear_arith)
                requires prod == delta * n, n < dd, delta < 0,
            ;
            vstd::arithmetic::div_mod::lemma_div_is_ordered(prod as int, 0, dd);
            vstd::arithmetic::div_mod::lemma_div_is_ordered(delta as int * dd, prod as int, dd);
            vstd::arithmetic::div_mod::lemma_div_multiples_vanish(delta as int, dd);
        }
    }
    (a as i128 + q) as i64
}

/// Compute the isosurface crossing point of one cube edge.
pub fn vert_interp(p1: Vec3i, v1: i64, p2: Vec3i, v2: i64) -> (r: Vec3i)
    requires
        p1.wf(),
        p2.wf(),
        in_unit_range(v1 as int),
        in_unit_range(v2 as int),
    ensures
        r == vert_interp_spec(p1, v1 as int, p2, v2 as int),
        r.wf(),
{
    if v1 == 0 {
        return p1;
    }
    if v2 == 0 {
        return p2;
    }
    if v1 == v2 {
        return p1;
    }
    let n0: i64 = -v1;
    let d0: i64 = v2 - v1;
    let n: i64 = if d0 < 0 { -n0 } else { n0 };
    let d: i64 = if d0 < 0 { -d0 } else { d0 };
    if n <= 0 {
        return p1;
    }
    if n >= d {
        return p2;
    }
    let x = interp_coord(p1.x, p2.x, n, d);
    let y = interp_coord(p1.y, p2.y, n, d);
    let z = interp_coord(p1.z, p2.z, n, d);
    Vec3i { x, y, z }
}

/// The crossing point of edge `e` of a cell with the given Z-order
/// corner positions and densities.
pub open spec fn edge_vertex_spec(corners: Seq<Vec3i>, values: Seq<int>, e: int) -> Vec3i {
    vert_interp_spec(
        corners[edge_corner_a(e)],
        values[edge_corner_a(e)],
        corners[edge_corner_b(e)],
        values[edge_corner_b(e)],
    )
}

/// The corner densities of a cell as mathematical integers.
pub open spec fn density_seq(values: Seq<i64>) -> Seq<int> {
    values.map_values(|v: i64| v as int)
}

/// The 8-bit configuration: bit `i` is set when corner `i`'s density is
/// strictly positive (inside the solid).
pub open spec fn config_spec(values: Seq<int>) -> int {
    (if values[0] > 0 { 1int } else { 0int })
        + (if values[1] > 0 { 2int } else { 0int })
        + (if values[2] > 0 { 4int } else { 0int })
        + (if values[3] > 0 { 8int } else { 0int })
        + (if values[4] > 0 { 16int } else { 0int })
        + (if values[5] > 0 { 32int } else { 0int })
        + (if values[6] > 0 { 64int } else { 0int })
        + (if values[7] > 0 { 128int } else { 0int })
}

/// A valid triangle-table row against an edge mask: 15 entries in
/// `[-1, 12)`, each flagged in the mask, in aligned triples with `-1`
/// only as a suffix.
pub open spec fn row_ok(mask: u16, row: Seq<i8>) -> bool {
    &&& row.len() == 15
    &&& forall|j: int| 0 <= j < 15 ==> -1 <= #[trigger] row[j] < 12
    &&& forall|j: int| 0 <= j < 15 && #[trigger] row[j] >= 0 ==>
            (mask >> (row[j] as u16)) & 1 == 1
    &&& forall|j: int| 0 <= j < 14 && #[trigger] row[j] == -1 ==> row[j + 1] == -1
    &&& forall|j: int| 0 < j < 15 && j % 3 != 0 ==> ((#[trigger] row[j] >= 0) <==> (row[j - 1] >= 0))
}

/// Index of the first `-1` in `row` at position `j` or later (15 if none).
pub open spec fn row_end_from(row: Seq<i8>, j: int) -> int
    decreases 15 - j,
{
    if j < 0 || j >= 15 {
        15
    } else if row[j] == -1 {
        j
    } else {
        row_end_from(row, j + 1)
    }
}

/// The classic edge table as a specification-level constant, split
/// into 8 pieces of 32 entries.
pub open spec fn classic_edge_0(c: int) -> u16 {
    if c == 0 { 0x0u16 }
    else if c == 1 { 0x103u16 }
    else if c == 2 { 0x809u16 }
    else if c == 3 { 0x90au16 }
    else if c == 4 { 0x130u16 }
    else if c == 5 { 0x33u16 }
    else if c == 6 { 0x939u16 }
    else if c == 7 { 0x83au16 }
    else if c == 8 { 0x890u16 }
    else if c == 9 { 0x993u16 }
    else if c == 10 { 0x99u16 }
    else if c == 11 { 0x19au16 }
    else if c == 12 { 0x9a0u16 }
    else if c == 13 { 0x8a3u16 }
    else if c == 14 { 0x1a9u16 }
    else if c == 15 { 0xaau16 }
    else if c == 16 { 0x206u16 }
    else if c == 17 { 0x305u16 }
    else if c == 18 { 0xa0fu16 }
    else if c == 19 { 0xb0cu16 }
    else if c == 20 { 0x336u16 }
    else if c == 21 { 0x235u16 }
    else if c == 22 { 0xb3fu16 }
    else if c == 23 { 0xa3cu16 }
    else if c == 24 { 0xa96u16 }
    else if c == 25 { 0xb95u16 }
    else if c == 26 { 0x29fu16 }
    else if c == 27 { 0x39cu16 }
    else if c == 28 { 0xba6u16 }
    else if c == 29 { 0xaa5u16 }
    else if c == 30 { 0x3afu16 }
    else { 0x2acu16 }
}

pub open spec fn classic_edge_1(c: int) -> u16 {
    if c == 0 { 0x40cu16 }
    else if c == 1 { 0x50fu16 }
    else if c == 2 { 0xc05u16 }
    else if c == 3 { 0xd06u16 }
    else if c == 4 { 0x53cu16 }
    else if c == 5 { 0x43fu16 }
    else if c == 6 { 0xd35u16 }
    else if c == 7 { 0xc36u16 }
    else if c == 8 { 0xc9cu16 }
    else if c == 9 { 0xd9fu16 }
    else if c == 10 { 0x495u16 }
    else if c == 11 { 0x596u16 }
    else if c == 12 { 0xdacu16 }
    else if c == 13 { 0xcafu16 }
    else if c == 14 { 0x5a5u16 }
    else if c == 15 { 0x4a6u16 }
    else if c == 16 { 0x60au16 }
    else if c == 17 { 0x709u16 }
    else if c == 18 { 0xe03u16 }
    else if c == 19 { 0xf00u16 }
    else if c == 20 { 0x73au16 }
    else if c == 21 { 0x639u16 }
    else if c == 22 { 0xf33u16 }
    else if c == 23 { 0xe30u16 }
    else if c == 24 { 0xe9au16 }
    else if c == 25 { 0xf99u16 }
    else if c == 26 { 0x693u16 }
    else if c == 27 { 0x790u16 }
    else if c == 28 { 0xfaau16 }
    else if c == 29 { 0xea9u16 }
    else if c == 30 { 0x7a3u16 }
    else { 0x6a0u16 }
}

pub open spec fn classic_edge_2(c: int) -> u16 {
    if c == 0 { 0x260u16 }
    else if c == 1 { 0x363u16 }
    else if c == 2 { 0xa69u16 }
    else if c == 3 { 0xb6au16 }
    else if c == 4 { 0x350u16 }
    else if c == 5 { 0x253u16 }
    else if c == 6 { 0xb59u16 }
    else if c == 7 { 0xa5au16 }
    else if c == 8 { 0xaf0u16 }
    else if c == 9 { 0xbf3u16 }
    else if c == 10 { 0x2f9u16 }
    else if c == 11 { 0x3fau16 }
    else if c == 12 { 0xbc0u16 }
    else if c == 13 { 0xac3u16 }
    else if c == 14 { 0x3c9u16 }
    else if c == 15 { 0x2cau16 }
    else if c == 16 { 0x66u16 }
    else if c == 17 { 0x165u16 }
    else if c == 18 { 0x86fu16 }
    else if c == 19 { 0x96cu16 }
    else if c == 20 { 0x156u16 }
    else if c == 21 { 0x55u16 }
    else if c == 22 { 0x95fu16 }
    else if c == 23 { 0x85cu16 }
    else if c == 24 { 0x8f6u16 }
    else if c == 25 { 0x9f5u16 }
    else if c == 26 { 0xffu16 }
    else if c == 27 { 0x1fcu16 }
    else if c == 28 { 0x9c6u16 }
    else if c == 29 { 0x8c5u16 }
    else if c == 30 { 0x1cfu16 }
    else { 0xccu16 }
}

pub open spec fn classic_edge_3(c: int) -> u16 {
    if c == 0 { 0x66cu16 }
    else if c == 1 { 0x76fu16 }
    else if c == 2 { 0xe65u16 }
    else if c == 3 { 0xf66u16 }
    else if c == 4 { 0x75cu16 }
    else if c == 5 { 0x65fu16 }
    else if c == 6 { 0xf55u16 }
    else if c == 7 { 0xe56u16 }
    else if c == 8 { 0xefcu16 }
    else if c == 9 { 0xfffu16 }
    else if c == 10 { 0x6f5u16 }
    else if c == 11 { 0x7f6u16 }
    else if c == 12 { 0xfccu16 }
    else if c == 13 { 0xecfu16 }
    else if c == 14 { 0x7c5u16 }
    else if c == 15 { 0x6c6u16 }
    else if c == 16 { 0x46au16 }
    else if c == 17 { 0x569u16 }
    else if c == 18 { 0xc63u16 }
    else if c == 19 { 0xd60u16 }
    else if c == 20 { 0x55au16 }
    else if c == 21 { 0x459u16 }
    else if c == 22 { 0xd53u16 }
    else if c == 23 { 0xc50u16 }
    else if c == 24 { 0xcfau16 }
    else if c == 25 { 0xdf9u16 }
    else if c == 26 { 0x4f3u16 }
    else if c == 27 { 0x5f0u16 }
    else if c == 28 { 0xdcau16 }
    else if c == 29 { 0xcc9u16 }
    else if c == 30 { 0x5c3u16 }
    else { 0x4c0u16 }
}

pub open spec fn classic_edge_4(c: int) -> u16 {
    if c == 0 { 0x4c0u16 }
    else if c == 1 { 0x5c3u16 }
    else if c == 2 { 0xcc9u16 }
    else if c == 3 { 0xdcau16 }
    else if c == 4 { 0x5f0u16 }
    else if c == 5 { 0x4f3u16 }
    else if c == 6 { 0xdf9u16 }
    else if c == 7 { 0xcfau16 }
    else if c == 8 { 0xc50u16 }
    else if c == 9 { 0xd53u16 }
    else if c == 10 { 0x459u16 }
    else if c == 11 { 0x55au16 }
    else if c == 12 { 0xd60u16 }
    else if c == 13 { 0xc63u16 }
    else if c == 14 { 0x569u16 }
    else if c == 15 { 0x46au16 }
    else if c == 16 { 0x6c6u16 }
    else if c == 17 { 0x7c5u16 }
    else if c == 18 { 0xecfu16 }
    else if c == 19 { 0xfccu16 }
    else if c == 20 { 0x7f6u16 }
    else if c == 21 { 0x6f5u16 }
    else if c == 22 { 0xfffu16 }
    else if c == 23 { 0xefcu16 }
    else if c == 24 { 0xe56u16 }
    else if c == 25 { 0xf55u16 }
    else if c == 26 { 0x65fu16 }
    else if c == 27 { 0x75cu16 }
    else if c == 28 { 0xf66u16 }
    else if c == 29 { 0xe65u16 }
    else if c == 30 { 0x76fu16 }
    else { 0x66cu16 }
}

pub open spec fn classic_edge_5(c: int) -> u16 {
    if c == 0 { 0xccu16 }
    else if c == 1 { 0x1cfu16 }
    else if c == 2 { 0x8c5u16 }
    else if c == 3 { 0x9c6u16 }
    else if c == 4 { 0x1fcu16 }
    else if c == 5 { 0xffu16 }
    else if c == 6 { 0x9f5u16 }
    else if c == 7 { 0x8f6u16 }
    else if c == 8 { 0x85cu16 }
    else if c == 9 { 0x95fu16 }
    else if c == 10 { 0x55u16 }
    else if c == 11 { 0x156u16 }
    else if c == 12 { 0x96cu16 }
    else if c == 13 { 0x86fu16 }
    else if c == 14 { 0x165u16 }
    else if c == 15 { 0x66u16 }
    else if c == 16 { 0x2cau16 }
    else if c == 17 { 0x3c9u16 }
    else if c == 18 { 0xac3u16 }
    else if c == 19 { 0xbc0u16 }
    else if c == 20 { 0x3fau16 }
    else if c == 21 { 0x2f9u16 }
    else if c == 22 { 0xbf3u16 }
    else if c == 23 { 0xaf0u16 }
    else if c == 24 { 0xa5au16 }
    else if c == 25 { 0xb59u16 }
    else if c == 26 { 0x253u16 }
    else if c == 27 { 0x350u16 }
    else if c == 28 { 0xb6au16 }
    else if c == 29 { 0xa69u16 }
    else if c == 30 { 0x363u16 }
    else { 0x260u16 }
}

pub open spec fn classic_edge_6(c: int) -> u16 {
    if c == 0 { 0x6a0u16 }
    else if c == 1 { 0x7a3u16 }
    else if c == 2 { 0xea9u16 }
    else if c == 3 { 0xfaau16 }
    else if c == 4 { 0x790u16 }
    else if c == 5 { 0x693u16 }
    else if c == 6 { 0xf99u16 }
    else if c == 7 { 0xe9au16 }
    else if c == 8 { 0xe30u16 }
    else if c == 9 { 0xf33u16 }
    else if c == 10 { 0x639u16 }
    else if c == 11 { 0x73au16 }
    else if c == 12 { 0xf00u16 }
    else if c == 13 { 0xe03u16 }
    else if c == 14 { 0x709u16 }
    else if c == 15 { 0x60au16 }
    else if c == 16 { 0x4a6u16 }
    else if c == 17 { 0x5a5u16 }
    else if c == 18 { 0xcafu16 }
    else if c == 19 { 0xdacu16 }
    else if c == 20 { 0x596u16 }
    else if c == 21 { 0x495u16 }
    else if c == 22 { 0xd9fu16 }
    else if c == 23 { 0xc9cu16 }
    else if c == 24 { 0xc36u16 }
    else if c == 25 { 0xd35u16 }
    else if c == 26 { 0x43fu16 }
    else if c == 27 { 0x53cu16 }
    else if c == 28 { 0xd06u16 }
    else if c == 29 { 0xc05u16 }
    else if c == 30 { 0x50fu16 }
    else { 0x40cu16 }
}

pub open spec fn classic_edge_7(c: int) -> u16 {
    if c == 0 { 0x2acu16 }
    else if c == 1 { 0x3afu16 }
    else if c == 2 { 0xaa5u16 }
    else if c == 3 { 0xba6u16 }
    else if c == 4 { 0x39cu16 }
    else if c == 5 { 0x29fu16 }
    else if c == 6 { 0xb95u16 }
    else if c == 7 { 0xa96u16 }
    else if c == 8 { 0xa3cu16 }
    else if c == 9 { 0xb3fu16 }
    else if c == 10 { 0x235u16 }
    else if c == 11 { 0x336u16 }
    else if c == 12 { 0xb0cu16 }
    else if c == 13 { 0xa0fu16 }
    else if c == 14 { 0x305u16 }
    else if c == 15 { 0x206u16 }
    else if c == 16 { 0xaau16 }
    else if c == 17 { 0x1a9u16 }
    else if c == 18 { 0x8a3u16 }
    else if c == 19 { 0x9a0u16 }
    else if c == 20 { 0x19au16 }
    else if c == 21 { 0x99u16 }
    else if c == 22 { 0x993u16 }
    else if c == 23 { 0x890u16 }
    else if c == 24 { 0x83au16 }
    else if c == 25 { 0x939u16 }
    else if c == 26 { 0x33u16 }
    else if c == 27 { 0x130u16 }
    else if c == 28 { 0x90au16 }
    else if c == 29 { 0x809u16 }
    else if c == 30 { 0x103u16 }
    else { 0x0u16 }
}

/// Entry `c` of the classic 256-entry edge table.
#[verifier::opaque]
pub open spec fn classic_edge(c: int) -> u16 {
    if c < 32 { classic_edge_0(c) }
    else if c < 64 { classic_edge_1(c - 32) }
    else if c < 96 { classic_edge_2(c - 64) }
    else if c < 128 { classic_edge_3(c - 96) }
    else if c < 160 { classic_edge_4(c - 128) }
    else if c < 192 { classic_edge_5(c - 160) }
    else if c < 224 { classic_edge_6(c - 192) }
    else { classic_edge_7(c - 224) }
}

/// The classic triangle table as a specification-level constant,
/// split into 16 pieces of 16 rows; `j` indexes within a row.
pub open spec fn classic_tri_0(c: int, j: int) -> i8 {
    if c == 0 { if j == 0 { -1i8 } else if j == 1 { -1i8 } else if j == 2 { -1i8 } else if j == 3 { -1i8 } else if j == 4 { -1i8 } else if j == 5 { -1i8 } else if j == 6 { -1i8 } else if j == 7 { -1i8 } else if j == 8 { -1i8 } else if j == 9 { -1i8 } else if j == 10 { -1i8 } else if j == 11 { -1i8 } else if j == 12 { -1i8 } else if j == 13 { -1i8 } else { -1i8 } }
    else if c == 1 { if j == 0 { 1i8 } else if j == 1 { 8i8 } else if j == 2 { 0i8 } else if j == 3 { -1i8 } else if j == 4 { -1i8 } else if j == 5 { -1i8 } else if j == 6 { -1i8 } else if j == 7 { -1i8 } else if j == 8 { -1i8 } else if j == 9 { -1i8 } else if j == 10 { -1i8 } else if j == 11 { -1i8 } else if j == 12 { -1i8 } else if j == 13 { -1i8 } else { -1i8 } }
    else if c == 2 { if j == 0 { 3i8 } else if j == 1 { 0i8 } else if j == 2 { 11i8 } else if j == 3 { -1i8 } else if j == 4 { -1i8 } else if j == 5 { -1i8 } else if j == 6 { -1i8 } else if j == 7 { -1i8 } else if j == 8 { -1i8 } else if j == 9 { -1i8 } else if j == 10 { -1i8 } else if j == 11 { -1i8 } else if j == 12 { -1i8 } else if j == 13 { -1i8 } else { -1i8 } }
    else if c == 3 { if j == 0 { 1i8 } else if j == 1 { 11i8 } else if j == 2 { 3i8 } else if j == 3 { 8i8 } else if j == 4 { 11i8 } else if j == 5 { 1i8 } else if j == 6 { -1i8 } else if j == 7 { -1i8 } else if j == 8 { -1i8 } else if j == 9 { -1i8 } else if j == 10 { -1i8 } else if j == 11 { -1i8 } else if j == 12 { -1i8 } else if j == 13 { -1i8 } else { -1i8 } }
    else if c == 4 { if j == 0 { 5i8 } else if j == 1 { 4i8 } else if j == 2 { 8i8 } else if j == 3 { -1i8 } else if j == 4 { -1i8 } else if j == 5 { -1i8 } else if j == 6 { -1i8 } else if j == 7 { -1i8 } else if j == 8 { -1i8 } else if j == 9 { -1i8 } else if j == 10 { -1i8 } else if j == 11 { -1i8 } else if j == 12 { -1i8 } else if j == 13 { -1i8 } else { -1i8 } }
    else if c == 5 { if j == 0 { 5i8 } else if j == 1 { 0i8 } else if j == 2 { 1i8 } else if j == 3 { 4i8 } else if j == 4 { 0i8 } else if j == 5 { 5i8 } else if j == 6 { -1i8 } else if j == 7 { -1i8 } else if j == 8 { -1i8 } else if j == 9 { -1i8 } else if j == 10 { -1i8 } else if j == 11 { -1i8 } else if j == 12 { -1i8 } else if j == 13 { -1i8 } else { -1i8 } }
    else if c == 6 { if j == 0 { 11i8 } else if j == 1 { 3i8 } else if j == 2 { 0i8 } else if j == 3 { 4i8 } else if j == 4 { 8i8 } else if j == 5 { 5i8 } else if j == 6 { -1i8 } else if j == 7 { -1i8 } else if j == 8 { -1i8 } else if j == 9 { -1i8 } else if j == 10 { -1i8 } else if j == 11 { -1i8 } else if j == 12 { -1i8 } else if j == 13 { -1i8 } else { -1i8 } }
    else if c == 7 { if j == 0 { 11i8 } else if j == 1 { 5i8 } else if j == 2 { 4i8 } else if j == 3 { 11i8 } else if j == 4 { 3i8 } else if j == 5 { 5i8 } else if j == 6 { 3i8 } else if j == 7 { 1i8 } else if j == 8 { 5i8 } else if j == 9 { -1i8 } else if j == 10 { -1i8 } else if j == 11 { -1i8 } else if j == 12 { -1i8 } else if j == 13 { -1i8 } else { -1i8 } }
    else if c == 8 { if j == 0 { 11i8 } else if j == 1 { 4i8 } else if j == 2 { 7i8 } else if j == 3 { -1i8 } else if j == 4 { -1i8 } else if j == 5 { -1i8 } else if j == 6 { -1i8 } else if j == 7 { -1i8 } else if j == 8 { -1i8 } else if j == 9 { -1i8 } else if j == 10 { -1i8 } else if j == 11 { -1i8 } else if j == 12 { -1i8 } else if j == 13 { -1i8 } else { -1i8 } }
    else if c == 9 { if j == 0 { 0i8 } else if j == 1 { 1i8 } else if j == 2 { 8i8 } else if j == 3 { 11i8 } else if j == 4 { 4i8 } else if j == 5 { 7i8 } else if j == 6 { -1i8 } else if j == 7 { -1i8 } else if j == 8 { -1i8 } else if j == 9 { -1i8 } else if j == 10 { -1i8 } else if j == 11 { -1i8 } else if j == 12 { -1i8 } else if j == 13 { -1i8 } else { -1i8 } }
    else if c == 10 { if j == 0 { 3i8 } else if j == 1 { 4i8 } else if j == 2 { 7i8 } else if j == 3 { 0i8 } else if j == 4 { 4i8 } else if j == 5 { 3i8 } else if j == 6 { -1i8 } else if j == 7 { -1i8 } else if j == 8 { -1i8 } else if j == 9 { -1i8 } else if j == 10 { -1i8 } else if j == 11 { -1i8 } else if j == 12 { -1i8 } else if j == 13 { -1i8 } else { -1i8 } }
    else if c == 11 { if j == 0 { 4i8 } else if j == 1 { 1i8 } else if j == 2 { 8i8 } else if j == 3 { 4i8 } else if j == 4 { 7i8 } else if j == 5 { 1i8 } else if j == 6 { 7i8 } else if j == 7 { 3i8 } else if j == 8 { 1i8 } else if j == 9 { -1i8 } else if j == 10 { -1i8 } else if j == 11 { -1i8 } else if j == 12 { -1i8 } else if j == 13 { -1i8 } else { -1i8 } }
    else if c == 12 { if j == 0 { 8i8 } else if j == 1 { 7i8 } else if j == 2 { 11i8 } else if j == 3 { 5i8 } else if j == 4 { 7i8 } else if j == 5 { 8i8 } else if j == 6 { -1i8 } else if j == 7 { -1i8 } else if j == 8 { -1i8 } else if j == 9 { -1i8 } else if j == 10 { -1i8 } else if j == 11 { -1i8 } else if j == 12 { -1i8 } else if j == 13 { -1i8 } else { -1i8 } }
    else if c == 13 { if j == 0 { 0i8 } else if j == 1 { 7i8 } else if j == 2 { 11i8 } else if j == 3 { 0i8 } else if j == 4 { 1i8 } else if j == 5 { 7i8 } else if j == 6 { 1i8 } else if j == 7 { 5i8 } else if j == 8 { 7i8 } else if j == 9 { -1i8 } else if j == 10 { -1i8 } else if j == 11 { -1i8 } else if j == 12 { -1i8 } else if j == 13 { -1i8 } else { -1i8 } }
    else if c == 14 { if j == 0 { 8i8 } else if j == 1 { 3i8 } else if j == 2 { 0i8 } else if j == 3 { 8i8 } else if j == 4 { 5i8 } else if j == 5 { 3i8 } else if j == 6 { 5i8 } else if j == 7 { 7i8 } else if j == 8 { 3i8 } else if j == 9 { -1i8 } else if j == 10 { -1i8 } else if j == 11 { -1i8 } else if j == 12 { -1i8 } else if j == 13 { -1i8 } else { -1i8 } }
    else { if j == 0 { 3i8 } else if j == 1 { 1i8 } else if j == 2 { 7i8 } else if j == 3 { 1i8 } else if j == 4 { 5i8 } else if j == 5 { 7i8 } else if j == 6 { -1i8 } else if j == 7 { -1i8 } else if j == 8 { -1i8 } else if j == 9 { -1i8 } else if j == 10 { -1i8 } else if j == 11 { -1i8 } else if j == 12 { -1i8 } else if j == 13 { -1i8 } else { -1i8 } }
}

pub open spec fn classic_tri_1(c: int, j: int) -> i8 {
    if c == 0 { if j == 0 { 2i8 } else if j == 1 { 9i8 } else if j == 2 { 1i8 } else if j == 3 { -1i8 } else if j == 4 { -1i8 } else if j == 5 { -1i8 } else if j == 6 { -1i8 } else if j == 7 { -1i8 } else if j == 8 { -1i8 } else if j == 9 { -1i8 } else if j == 10 { -1i8 } else if j == 11 { -1i8 } else if j == 12 { -1i8 } else if j == 13 { -1i8 } else { -1i8 } }
    else if c == 1 { if j == 0 { 2i8 } else if j == 1 { 8i8 } else if j == 2 { 0i8 } else if j == 3 { 9i8 } else if j == 4 { 8i8 } else if j == 5 { 2i8 } else if j == 6 { -1i8 } else if j == 7 { -1i8 } else if j == 8 { -1i8 } else if j == 9 { -1i8 } else if j == 10 { -1i8 } else if j == 11 { -1i8 } else if j == 12 { -1i8 } else if j == 13 { -1i8 } else { -1i8 } }
    else if c == 2 { if j == 0 { 2i8 } else if j == 1 { 9i8 } else if j == 2 { 1i8 } else if j == 3 { 3i8 } else if j == 4 { 0i8 } else if j == 5 { 11i8 } else if j == 6 { -1i8 } else if j == 7 { -1i8 } else if j == 8 { -1i8 } else if j == 9 { -1i8 } else if j == 10 { -1i8 } else if j == 11 { -1i8 } else if j == 12 { -1i8 } else if j == 13 { -1i8 } else { -1i8 } }
    else if c == 3 { if j == 0 { 2i8 } else if j == 1 { 11i8 } else if j == 2 { 3i8 } else if j == 3 { 2i8 } else if j == 4 { 9i8 } else if j == 5 { 11i8 } else if j == 6 { 9i8 } else if j == 7 { 8i8 } else if j == 8 { 11i8 } else if j == 9 { -1i8 } else if j == 10 { -1i8 } else if j == 11 { -1i8 } else if j == 12 { -1i8 } else if j == 13 { -1i8 } else { -1i8 } }
    else if c == 4 { if j == 0 { 1i8 } else if j == 1 { 2i8 } else if j == 2 { 9i8 } else if j == 3 { 8i8 } else if j == 4 { 5i8 } else if j == 5 { 4i8 } else if j == 6 { -1i8 } else if j == 7 { -1i8 } else if j == 8 { -1i8 } else if j == 9 { -1i8 } else if j == 10 { -1i8 } else if j == 11 { -1i8 } else if j == 12 { -1i8 } else if j == 13 { -1i8 } else { -1i8 } }
    else if c == 5 { if j == 0 { 5i8 } else if j == 1 { 2i8 } else if j == 2 { 9i8 } else if j == 3 { 5i8 } else if j == 4 { 4i8 } else if j == 5 { 2i8 } else if j == 6 { 4i8 } else if j == 7 { 0i8 } else if j == 8 { 2i8 } else if j == 9 { -1i8 } else if j == 10 { -1i8 } else if j == 11 { -1i8 } else if j == 12 { -1i8 } else if j == 13 { -1i8 } else { -1i8 } }
    else if c == 6 { if j == 0 { 3i8 } else if j == 1 { 0i8 } else if j == 2 { 11i8 } else if j == 3 { 1i8 } else if j == 4 { 2i8 } else if j == 5 { 9i8 } else if j == 6 { 4i8 } else if j == 7 { 8i8 } else if j == 8 { 5i8 } else if j == 9 { -1i8 } else if j == 10 { -1i8 } else if j == 11 { -1i8 } else if j == 12 { -1i8 } else if j == 13 { -1i8 } else { -1i8 } }
    else if c == 7 { if j == 0 { 11i8 } else if j == 1 { 5i8 } else if j == 2 { 4i8 } else if j == 3 { 3i8 } else if j == 4 { 5i8 } else if j == 5 { 11i8 } else if j == 6 { 3i8 } else if j == 7 { 9i8 } else if j == 8 { 5i8 } else if j == 9 { 3i8 } else if j == 10 { 2i8 } else if j == 11 { 9i8 } else if j == 12 { -1i8 } else if j == 13 { -1i8 } else { -1i8 } }
    else if c == 8 { if j == 0 { 2i8 } else if j == 1 { 9i8 } else if j == 2 { 1i8 } else if j == 3 { 7i8 } else if j == 4 { 11i8 } else if j == 5 { 4i8 } else if j == 6 { -1i8 } else if j == 7 { -1i8 } else if j == 8 { -1i8 } else if j == 9 { -1i8 } else if j == 10 { -1i8 } else if j == 11 { -1i8 } else if j == 12 { -1i8 } else if j == 13 { -1i8 } else { -1i8 } }
    else if c == 9 { if j == 0 { 8i8 } else if j == 1 { 2i8 } else if j == 2 { 9i8 } else if j == 3 { 8i8 } else if j == 4 { 0i8 } else if j == 5 { 2i8 } else if j == 6 { 11i8 } else if j == 7 { 4i8 } else if j == 8 { 7i8 } else if j == 9 { -1i8 } else if j == 10 { -1i8 } else if j == 11 { -1i8 } else if j == 12 { -1i8 } else if j == 13 { -1i8 } else { -1i8 } }
    else if c == 10 { if j == 0 { 3i8 } else if j == 1 { 4i8 } else if j == 2 { 7i8 } else if j == 3 { 3i8 } else if j == 4 { 0i8 } else if j == 5 { 4i8 } else if j == 6 { 1i8 } else if j == 7 { 2i8 } else if j == 8 { 9i8 } else if j == 9 { -1i8 } else if j == 10 { -1i8 } else if j == 11 { -1i8 } else if j == 12 { -1i8 } else if j == 13 { -1i8 } else { -1i8 } }
    else if c == 11 { if j == 0 { 2i8 } else if j == 1 { 9i8 } else if j == 2 { 8i8 } else if j == 3 { 2i8 } else if j == 4 { 8i8 } else if j == 5 { 7i8 } else if j == 6 { 2i8 } else if j == 7 { 7i8 } else if j == 8 { 3i8 } else if j == 9 { 7i8 } else if j == 10 { 8i8 } else if j == 11 { 4i8 } else if j == 12 { -1i8 } else if j == 13 { -1i8 } else { -1i8 } }
    else if c == 12 { if j == 0 { 8i8 } else if j == 1 { 7i8 } else if j == 2 { 11i8 } else if j == 3 { 8i8 } else if j == 4 { 5i8 } else if j == 5 { 7i8 } else if j == 6 { 9i8 } else if j == 7 { 1i8 } else if j == 8 { 2i8 } else if j == 9 { -1i8 } else if j == 10 { -1i8 } else if j == 11 { -1i8 } else if j == 12 { -1i8 } else if j == 13 { -1i8 } else { -1i8 } }
    else if c == 13 { if j == 0 { 9i8 } else if j == 1 { 0i8 } else if j == 2 { 2i8 } else if j == 3 { 9i8 } else if j == 4 { 7i8 } else if j == 5 { 0i8 } else if j == 6 { 9i8 } else if j == 7 { 5i8 } else if j == 8 { 7i8 } else if j == 9 { 11i8 } else if j == 10 { 0i8 } else if j == 11 { 7i8 } else if j == 12 { -1i8 } else if j == 13 { -1i8 } else { -1i8 } }
    else if c == 14 { if j == 0 { 2i8 } else if j == 1 { 9i8 } else if j == 2 { 1i8 } else if j == 3 { 3i8 } else if j == 4 { 0i8 } else if j == 5 { 5i8 } else if j == 6 { 3i8 } else if j == 7 { 5i8 } else if j == 8 { 7i8 } else if j == 9 { 5i8 } else if j == 10 { 0i8 } else if j == 11 { 8i8 } else if j == 12 { -1i8 } else if j == 13 { -1i8 } else { -1i8 } }
    else { if j == 0 { 2i8 } else if j == 1 { 9i8 } else if j == 2 { 5i8 } else if j == 3 { 2i8 } else if j == 4 { 5i8 } else if j == 5 { 3i8 } else if j == 6 { 3i8 } else if j == 7 { 5i8 } else if j == 8 { 7i8 } else if j == 9 { -1i8 } else if j == 10 { -1i8 } else if j == 11 { -1i8 } else if j == 12 { -1i8 } else if j == 13 { -1i8 } else { -1i8 } }
}

pub open spec fn classic_tri_2(c: int, j: int) -> i8 {
    if c == 0 { if j == 0 { 2i8 } else if j == 1 { 3i8 } else if j == 2 { 10i8 } else if j == 3 { -1i8 } else if j == 4 { -1i8 } else if j == 5 { -1i8 } else if j == 6 { -1i8 } else if j == 7 { -1i8 } else if j == 8 { -1i8 } else if j == 9 { -1i8 } else if j == 10 { -1i8 } else if j == 11 { -1i8 } else if j == 12 { -1i8 } else if j == 13 { -1i8 } else { -1i8 } }
    else if c == 1 { if j == 0 { 3i8 } else if j == 1 { 10i8 } else if j == 2 { 2i8 } else if j == 3 { 0i8 } else if j == 4 { 1i8 } else if j == 5 { 8i8 } else if j == 6 { -1i8 } else if j == 7 { -1i8 } else if j == 8 { -1i8 } else if j == 9 { -1i8 } else if j == 10 { -1i8 } else if j == 11 { -1i8 } else if j == 12 { -1i8 } else if j == 13 { -1i8 } else { -1i8 } }
    else if c == 2 { if j == 0 { 10i8 } else if j == 1 { 0i8 } else if j == 2 { 11i8 } else if j == 3 { 2i8 } else if j == 4 { 0i8 } else if j == 5 { 10i8 } else if j == 6 { -1i8 } else if j == 7 { -1i8 } else if j == 8 { -1i8 } else if j == 9 { -1i8 } else if j == 10 { -1i8 } else if j == 11 { -1i8 } else if j == 12 { -1i8 } else if j == 13 { -1i8 } else { -1i8 } }
    else if c == 3 { if j == 0 { 1i8 } else if j == 1 { 10i8 } else if j == 2 { 2i8 } else if j == 3 { 1i8 } else if j == 4 { 8i8 } else if j == 5 { 10i8 } else if j == 6 { 8i8 } else if j == 7 { 11i8 } else if j == 8 { 10i8 } else if j == 9 { -1i8 } else if j == 10 { -1i8 } else if j == 11 { -1i8 } else if j == 12 { -1i8 } else if j == 13 { -1i8 } else { -1i8 } }
    else if c == 4 { if j == 0 { 2i8 } else if j == 1 { 3i8 } else if j == 2 { 10i8 } else if j == 3 { 8i8 } else if j == 4 { 5i8 } else if j == 5 { 4i8 } else if j == 6 { -1i8 } else if j == 7 { -1i8 } else if j == 8 { -1i8 } else if j == 9 { -1i8 } else if j == 10 { -1i8 } else if j == 11 { -1i8 } else if j == 12 { -1i8 } else if j == 13 { -1i8 } else { -1i8 } }
    else if c == 5 { if j == 0 { 0i8 } else if j == 1 { 5i8 } else if j == 2 { 4i8 } else if j == 3 { 0i8 } else if j == 4 { 1i8 } else if j == 5 { 5i8 } else if j == 6 { 2i8 } else if j == 7 { 3i8 } else if j == 8 { 10i8 } else if j == 9 { -1i8 } else if j == 10 { -1i8 } else if j == 11 { -1i8 } else if j == 12 { -1i8 } else if j == 13 { -1i8 } else { -1i8 } }
    else if c == 6 { if j == 0 { 0i8 } else if j == 1 { 10i8 } else if j == 2 { 2i8 } else if j == 3 { 0i8 } else if j == 4 { 11i8 } else if j == 5 { 10i8 } else if j == 6 { 4i8 } else if j == 7 { 8i8 } else if j == 8 { 5i8 } else if j == 9 { -1i8 } else if j == 10 { -1i8 } else if j == 11 { -1i8 } else if j == 12 { -1i8 } else if j == 13 { -1i8 } else { -1i8 } }
    else if c == 7 { if j == 0 { 2i8 } else if j == 1 { 1i8 } else if j == 2 { 5i8 } else if j == 3 { 2i8 } else if j == 4 { 5i8 } else if j == 5 { 11i8 } else if j == 6 { 2i8 } else if j == 7 { 11i8 } else if j == 8 { 10i8 } else if j == 9 { 4i8 } else if j == 10 { 11i8 } else if j == 11 { 5i8 } else if j == 12 { -1i8 } else if j == 13 { -1i8 } else { -1i8 } }
    else if c == 8 { if j == 0 { 10i8 } else if j == 1 { 2i8 } else if j == 2 { 3i8 } else if j == 3 { 7i8 } else if j == 4 { 11i8 } else if j == 5 { 4i8 } else if j == 6 { -1i8 } else if j == 7 { -1i8 } else if j == 8 { -1i8 } else if j == 9 { -1i8 } else if j == 10 { -1i8 } else if j == 11 { -1i8 } else if j == 12 { -1i8 } else if j == 13 { -1i8 } else { -1i8 } }
    else if c == 9 { if j == 0 { 2i8 } else if j == 1 { 3i8 } else if j == 2 { 10i8 } else if j == 3 { 0i8 } else if j == 4 { 1i8 } else if j == 5 { 8i8 } else if j == 6 { 7i8 } else if j == 7 { 11i8 } else if j == 8 { 4i8 } else if j == 9 { -1i8 } else if j == 10 { -1i8 } else if j == 11 { -1i8 } else if j == 12 { -1i8 } else if j == 13 { -1i8 } else { -1i8 } }
    else if c == 10 { if j == 0 { 10i8 } else if j == 1 { 4i8 } else if j == 2 { 7i8 } else if j == 3 { 10i8 } else if j == 4 { 2i8 } else if j == 5 { 4i8 } else if j == 6 { 2i8 } else if j == 7 { 0i8 } else if j == 8 { 4i8 } else if j == 9 { -1i8 } else if j == 10 { -1i8 } else if j == 11 { -1i8 } else if j == 12 { -1i8 } else if j == 13 { -1i8 } else { -1i8 } }
    else if c == 11 { if j == 0 { 1i8 } else if j == 1 { 8i8 } else if j == 2 { 4i8 } else if j == 3 { 2i8 } else if j == 4 { 1i8 } else if j == 5 { 4i8 } else if j == 6 { 2i8 } else if j == 7 { 4i8 } else if j == 8 { 7i8 } else if j == 9 { 2i8 } else if j == 10 { 7i8 } else if j == 11 { 10i8 } else if j == 12 { -1i8 } else if j == 13 { -1i8 } else { -1i8 } }
    else if c == 12 { if j == 0 { 7i8 } else if j == 1 { 8i8 } else if j == 2 { 5i8 } else if j == 3 { 7i8 } else if j == 4 { 11i8 } else if j == 5 { 8i8 } else if j == 6 { 3i8 } else if j == 7 { 10i8 } else if j == 8 { 2i8 } else if j == 9 { -1i8 } else if j == 10 { -1i8 } else if j == 11 { -1i8 } else if j == 12 { -1i8 } else if j == 13 { -1i8 } else { -1i8 } }
    else if c == 13 { if j == 0 { 10i8 } else if j == 1 { 2i8 } else if j == 2 { 3i8 } else if j == 3 { 7i8 } else if j == 4 { 11i8 } else if j == 5 { 1i8 } else if j == 6 { 7i8 } else if j == 7 { 1i8 } else if j == 8 { 5i8 } else if j == 9 { 1i8 } else if j == 10 { 11i8 } else if j == 11 { 0i8 } else if j == 12 { -1i8 } else if j == 13 { -1i8 } else { -1i8 } }
    else if c == 14 { if j == 0 { 10i8 } else if j == 1 { 5i8 } else if j == 2 { 7i8 } else if j == 3 { 10i8 } else if j == 4 { 0i8 } else if j == 5 { 5i8 } else if j == 6 { 10i8 } else if j == 7 { 2i8 } else if j == 8 { 0i8 } else if j == 9 { 0i8 } else if j == 10 { 8i8 } else if j == 11 { 5i8 } else if j == 12 { -1i8 } else if j == 13 { -1i8 } else { -1i8 } }
    else { if j == 0 { 10i8 } else if j == 1 { 2i8 } else if j == 2 { 1i8 } else if j == 3 { 10i8 } else if j == 4 { 1i8 } else if j == 5 { 7i8 } else if j == 6 { 7i8 } else if j == 7 { 1i8 } else if j == 8 { 5i8 } else if j == 9 { -1i8 } else if j == 10 { -1i8 } else if j == 11 { -1i8 } else if j == 12 { -1i8 } else if j == 13 { -1i8 } else { -1i8 } }
}

pub open spec fn classic_tri_3(c: int, j: int) -> i8 {
    if c == 0 { if j == 0 { 3i8 } else if j == 1 { 9i8 } else if j == 2 { 1i8 } else if j == 3 { 10i8 } else if j == 4 { 9i8 } else if j == 5 { 3i8 } else if j == 6 { -1i8 } else if j == 7 { -1i8 } else if j == 8 { -1i8 } else if j == 9 { -1i8 } else if j == 10 { -1i8 } else if j == 11 { -1i8 } else if j == 12 { -1i8 } else if j == 13 { -1i8 } else { -1i8 } }
    else if c == 1 { if j == 0 { 3i8 } else if j == 1 { 8i8 } else if j == 2 { 0i8 } else if j == 3 { 3i8 } else if j == 4 { 10i8 } else if j == 5 { 8i8 } else if j == 6 { 10i8 } else if j == 7 { 9i8 } else if j == 8 { 8i8 } else if j == 9 { -1i8 } else if j == 10 { -1i8 } else if j == 11 { -1i8 } else if j == 12 { -1i8 } else if j == 13 { -1i8 } else { -1i8 } }
    else if c == 2 { if j == 0 { 0i8 } else if j == 1 { 9i8 } else if j == 2 { 1i8 } else if j == 3 { 0i8 } else if j == 4 { 11i8 } else if j == 5 { 9i8 } else if j == 6 { 11i8 } else if j == 7 { 10i8 } else if j == 8 { 9i8 } else if j == 9 { -1i8 } else if j == 10 { -1i8 } else if j == 11 { -1i8 } else if j == 12 { -1i8 } else if j == 13 { -1i8 } else { -1i8 } }
    else if c == 3 { if j == 0 { 10i8 } else if j == 1 { 9i8 } else if j == 2 { 11i8 } else if j == 3 { 11i8 } else if j == 4 { 9i8 } else if j == 5 { 8i8 } else if j == 6 { -1i8 } else if j == 7 { -1i8 } else if j == 8 { -1i8 } else if j == 9 { -1i8 } else if j == 10 { -1i8 } else if j == 11 { -1i8 } else if j == 12 { -1i8 } else if j == 13 { -1i8 } else { -1i8 } }
    else if c == 4 { if j == 0 { 9i8 } else if j == 1 { 3i8 } else if j == 2 { 10i8 } else if j == 3 { 9i8 } else if j == 4 { 1i8 } else if j == 5 { 3i8 } else if j == 6 { 8i8 } else if j == 7 { 5i8 } else if j == 8 { 4i8 } else if j == 9 { -1i8 } else if j == 10 { -1i8 } else if j == 11 { -1i8 } else if j == 12 { -1i8 } else if j == 13 { -1i8 } else { -1i8 } }
    else if c == 5 { if j == 0 { 3i8 } else if j == 1 { 4i8 } else if j == 2 { 0i8 } else if j == 3 { 3i8 } else if j == 4 { 9i8 } else if j == 5 { 4i8 } else if j == 6 { 3i8 } else if j == 7 { 10i8 } else if j == 8 { 9i8 } else if j == 9 { 9i8 } else if j == 10 { 5i8 } else if j == 11 { 4i8 } else if j == 12 { -1i8 } else if j == 13 { -1i8 } else { -1i8 } }
    else if c == 6 { if j == 0 { 4i8 } else if j == 1 { 8i8 } else if j == 2 { 5i8 } else if j == 3 { 0i8 } else if j == 4 { 11i8 } else if j == 5 { 1i8 } else if j == 6 { 11i8 } else if j == 7 { 9i8 } else if j == 8 { 1i8 } else if j == 9 { 11i8 } else if j == 10 { 10i8 } else if j == 11 { 9i8 } else if j == 12 { -1i8 } else if j == 13 { -1i8 } else { -1i8 } }
    else if c == 7 { if j == 0 { 5i8 } else if j == 1 { 4i8 } else if j == 2 { 11i8 } else if j == 3 { 5i8 } else if j == 4 { 11i8 } else if j == 5 { 9i8 } else if j == 6 { 9i8 } else if j == 7 { 11i8 } else if j == 8 { 10i8 } else if j == 9 { -1i8 } else if j == 10 { -1i8 } else if j == 11 { -1i8 } else if j == 12 { -1i8 } else if j == 13 { -1i8 } else { -1i8 } }
    else if c == 8 { if j == 0 { 3i8 } else if j == 1 { 9i8 } else if j == 2 { 1i8 } else if j == 3 { 3i8 } else if j == 4 { 10i8 } else if j == 5 { 9i8 } else if j == 6 { 7i8 } else if j == 7 { 11i8 } else if j == 8 { 4i8 } else if j == 9 { -1i8 } else if j == 10 { -1i8 } else if j == 11 { -1i8 } else if j == 12 { -1i8 } else if j == 13 { -1i8 } else { -1i8 } }
    else if c == 9 { if j == 0 { 7i8 } else if j == 1 { 11i8 } else if j == 2 { 4i8 } else if j == 3 { 3i8 } else if j == 4 { 10i8 } else if j == 5 { 0i8 } else if j == 6 { 10i8 } else if j == 7 { 8i8 } else if j == 8 { 0i8 } else if j == 9 { 10i8 } else if j == 10 { 9i8 } else if j == 11 { 8i8 } else if j == 12 { -1i8 } else if j == 13 { -1i8 } else { -1i8 } }
    else if c == 10 { if j == 0 { 7i8 } else if j == 1 { 10i8 } else if j == 2 { 9i8 } else if j == 3 { 7i8 } else if j == 4 { 9i8 } else if j == 5 { 0i8 } else if j == 6 { 7i8 } else if j == 7 { 0i8 } else if j == 8 { 4i8 } else if j == 9 { 1i8 } else if j == 10 { 0i8 } else if j == 11 { 9i8 } else if j == 12 { -1i8 } else if j == 13 { -1i8 } else { -1i8 } }
    else if c == 11 { if j == 0 { 4i8 } else if j == 1 { 7i8 } else if j == 2 { 10i8 } else if j == 3 { 4i8 } else if j == 4 { 10i8 } else if j == 5 { 8i8 } else if j == 6 { 8i8 } else if j == 7 { 10i8 } else if j == 8 { 9i8 } else if j == 9 { -1i8 } else if j == 10 { -1i8 } else if j == 11 { -1i8 } else if j == 12 { -1i8 } else if j == 13 { -1i8 } else { -1i8 } }
    else if c == 12 { if j == 0 { 11i8 } else if j == 1 { 5i8 } else if j == 2 { 7i8 } else if j == 3 { 11i8 } else if j == 4 { 8i8 } else if j == 5 { 5i8 } else if j == 6 { 10i8 } else if j == 7 { 9i8 } else if j == 8 { 3i8 } else if j == 9 { 9i8 } else if j == 10 { 1i8 } else if j == 11 { 3i8 } else if j == 12 { -1i8 } else if j == 13 { -1i8 } else { -1i8 } }
    else if c == 13 { if j == 0 { 10i8 } else if j == 1 { 9i8 } else if j == 2 { 0i8 } else if j == 3 { 10i8 } else if j == 4 { 0i8 } else if j == 5 { 3i8 } else if j == 6 { 9i8 } else if j == 7 { 5i8 } else if j == 8 { 0i8 } else if j == 9 { 11i8 } else if j == 10 { 0i8 } else if j == 11 { 7i8 } else if j == 12 { 5i8 } else if j == 13 { 7i8 } else { 0i8 } }
    else if c == 14 { if j == 0 { 5i8 } else if j == 1 { 7i8 } else if j == 2 { 0i8 } else if j == 3 { 5i8 } else if j == 4 { 0i8 } else if j == 5 { 8i8 } else if j == 6 { 7i8 } else if j == 7 { 10i8 } else if j == 8 { 0i8 } else if j == 9 { 1i8 } else if j == 10 { 0i8 } else if j == 11 { 9i8 } else if j == 12 { 10i8 } else if j == 13 { 9i8 } else { 0i8 } }
    else { if j == 0 { 10i8 } else if j == 1 { 9i8 } else if j == 2 { 5i8 } else if j == 3 { 7i8 } else if j == 4 { 10i8 } else if j == 5 { 5i8 } else if j == 6 { -1i8 } else if j == 7 { -1i8 } else if j == 8 { -1i8 } else if j == 9 { -1i8 } else if j == 10 { -1i8 } else if j == 11 { -1i8 } else if j == 12 { -1i8 } else if j == 13 { -1i8 } else { -1i8 } }
}

pub open spec fn classic_tri_4(c: int, j: int) -> i8 {
    if c == 0 { if j == 0 { 6i8 } else if j == 1 { 5i8 } else if j == 2 { 9i8 } else if j == 3 { -1i8 } else if j == 4 { -1i8 } else if j == 5 { -1i8 } else if j == 6 { -1i8 } else if j == 7 { -1i8 } else if j == 8 { -1i8 } else if j == 9 { -1i8 } else if j == 10 { -1i8 } else if j == 11 { -1i8 } else if j == 12 { -1i8 } else if j == 13 { -1i8 } else { -1i8 } }
    else if c == 1 { if j == 0 { 9i8 } else if j == 1 { 6i8 } else if j == 2 { 5i8 } else if j == 3 { 1i8 } else if j == 4 { 8i8 } else if j == 5 { 0i8 } else if j == 6 { -1i8 } else if j == 7 { -1i8 } else if j == 8 { -1i8 } else if j == 9 { -1i8 } else if j == 10 { -1i8 } else if j == 11 { -1i8 } else if j == 12 { -1i8 } else if j == 13 { -1i8 } else { -1i8 } }
    else if c == 2 { if j == 0 { 3i8 } else if j == 1 { 0i8 } else if j == 2 { 11i8 } else if j == 3 { 9i8 } else if j == 4 { 6i8 } else if j == 5 { 5i8 } else if j == 6 { -1i8 } else if j == 7 { -1i8 } else if j == 8 { -1i8 } else if j == 9 { -1i8 } else if j == 10 { -1i8 } else if j == 11 { -1i8 } else if j == 12 { -1i8 } else if j == 13 { -1i8 } else { -1i8 } }
    else if c == 3 { if j == 0 { 1i8 } else if j == 1 { 11i8 } else if j == 2 { 3i8 } else if j == 3 { 1i8 } else if j == 4 { 8i8 } else if j == 5 { 11i8 } else if j == 6 { 5i8 } else if j == 7 { 9i8 } else if j == 8 { 6i8 } else if j == 9 { -1i8 } else if j == 10 { -1i8 } else if j == 11 { -1i8 } else if j == 12 { -1i8 } else if j == 13 { -1i8 } else { -1i8 } }
    else if c == 4 { if j == 0 { 4i8 } else if j == 1 { 9i8 } else if j == 2 { 6i8 } else if j == 3 { 8i8 } else if j == 4 { 9i8 } else if j == 5 { 4i8 } else if j == 6 { -1i8 } else if j == 7 { -1i8 } else if j == 8 { -1i8 } else if j == 9 { -1i8 } else if j == 10 { -1i8 } else if j == 11 { -1i8 } else if j == 12 { -1i8 } else if j == 13 { -1i8 } else { -1i8 } }
    else if c == 5 { if j == 0 { 9i8 } else if j == 1 { 0i8 } else if j == 2 { 1i8 } else if j == 3 { 9i8 } else if j == 4 { 6i8 } else if j == 5 { 0i8 } else if j == 6 { 6i8 } else if j == 7 { 4i8 } else if j == 8 { 0i8 } else if j == 9 { -1i8 } else if j == 10 { -1i8 } else if j == 11 { -1i8 } else if j == 12 { -1i8 } else if j == 13 { -1i8 } else { -1i8 } }
    else if c == 6 { if j == 0 { 4i8 } else if j == 1 { 9i8 } else if j == 2 { 6i8 } else if j == 3 { 4i8 } else if j == 4 { 8i8 } else if j == 5 { 9i8 } else if j == 6 { 0i8 } else if j == 7 { 11i8 } else if j == 8 { 3i8 } else if j == 9 { -1i8 } else if j == 10 { -1i8 } else if j == 11 { -1i8 } else if j == 12 { -1i8 } else if j == 13 { -1i8 } else { -1i8 } }
    else if c == 7 { if j == 0 { 9i8 } else if j == 1 { 3i8 } else if j == 2 { 1i8 } else if j == 3 { 9i8 } else if j == 4 { 4i8 } else if j == 5 { 3i8 } else if j == 6 { 9i8 } else if j == 7 { 6i8 } else if j == 8 { 4i8 } else if j == 9 { 4i8 } else if j == 10 { 11i8 } else if j == 11 { 3i8 } else if j == 12 { -1i8 } else if j == 13 { -1i8 } else { -1i8 } }
    else if c == 8 { if j == 0 { 7i8 } else if j == 1 { 11i8 } else if j == 2 { 4i8 } else if j == 3 { 6i8 } else if j == 4 { 5i8 } else if j == 5 { 9i8 } else if j == 6 { -1i8 } else if j == 7 { -1i8 } else if j == 8 { -1i8 } else if j == 9 { -1i8 } else if j == 10 { -1i8 } else if j == 11 { -1i8 } else if j == 12 { -1i8 } else if j == 13 { -1i8 } else { -1i8 } }
    else if c == 9 { if j == 0 { 1i8 } else if j == 1 { 8i8 } else if j == 2 { 0i8 } else if j == 3 { 5i8 } else if j == 4 { 9i8 } else if j == 5 { 6i8 } else if j == 6 { 11i8 } else if j == 7 { 4i8 } else if j == 8 { 7i8 } else if j == 9 { -1i8 } else if j == 10 { -1i8 } else if j == 11 { -1i8 } else if j == 12 { -1i8 } else if j == 13 { -1i8 } else { -1i8 } }
    else if c == 10 { if j == 0 { 4i8 } else if j == 1 { 3i8 } else if j == 2 { 0i8 } else if j == 3 { 4i8 } else if j == 4 { 7i8 } else if j == 5 { 3i8 } else if j == 6 { 6i8 } else if j == 7 { 5i8 } else if j == 8 { 9i8 } else if j == 9 { -1i8 } else if j == 10 { -1i8 } else if j == 11 { -1i8 } else if j == 12 { -1i8 } else if j == 13 { -1i8 } else { -1i8 } }
    else if c == 11 { if j == 0 { 9i8 } else if j == 1 { 6i8 } else if j == 2 { 5i8 } else if j == 3 { 1i8 } else if j == 4 { 8i8 } else if j == 5 { 7i8 } else if j == 6 { 1i8 } else if j == 7 { 7i8 } else if j == 8 { 3i8 } else if j == 9 { 7i8 } else if j == 10 { 8i8 } else if j == 11 { 4i8 } else if j == 12 { -1i8 } else if j == 13 { -1i8 } else { -1i8 } }
    else if c == 12 { if j == 0 { 7i8 } else if j == 1 { 9i8 } else if j == 2 { 6i8 } else if j == 3 { 7i8 } else if j == 4 { 11i8 } else if j == 5 { 9i8 } else if j == 6 { 11i8 } else if j == 7 { 8i8 } else if j == 8 { 9i8 } else if j == 9 { -1i8 } else if j == 10 { -1i8 } else if j == 11 { -1i8 } else if j == 12 { -1i8 } else if j == 13 { -1i8 } else { -1i8 } }
    else if c == 13 { if j == 0 { 0i8 } else if j == 1 { 7i8 } else if j == 2 { 11i8 } else if j == 3 { 1i8 } else if j == 4 { 7i8 } else if j == 5 { 0i8 } else if j == 6 { 1i8 } else if j == 7 { 6i8 } else if j == 8 { 7i8 } else if j == 9 { 1i8 } else if j == 10 { 9i8 } else if j == 11 { 6i8 } else if j == 12 { -1i8 } else if j == 13 { -1i8 } else { -1i8 } }
    else if c == 14 { if j == 0 { 0i8 } else if j == 1 { 7i8 } else if j == 2 { 3i8 } else if j == 3 { 0i8 } else if j == 4 { 9i8 } else if j == 5 { 7i8 } else if j == 6 { 0i8 } else if j == 7 { 8i8 } else if j == 8 { 9i8 } else if j == 9 { 6i8 } else if j == 10 { 7i8 } else if j == 11 { 9i8 } else if j == 12 { -1i8 } else if j == 13 { -1i8 } else { -1i8 } }
    else { if j == 0 { 9i8 } else if j == 1 { 6i8 } else if j == 2 { 7i8 } else if j == 3 { 9i8 } else if j == 4 { 7i8 } else if j == 5 { 1i8 } else if j == 6 { 1i8 } else if j == 7 { 7i8 } else if j == 8 { 3i8 } else if j == 9 { -1i8 } else if j == 10 { -1i8 } else if j == 11 { -1i8 } else if j == 12 { -1i8 } else if j == 13 { -1i8 } else { -1i8 } }
}

pub open spec fn classic_tri_5(c: int, j: int) -> i8 {
    if c == 0 { if j == 0 { 6i8 } else if j == 1 { 1i8 } else if j == 2 { 2i8 } else if j == 3 { 5i8 } else if j == 4 { 1i8 } else if j == 5 { 6i8 } else if j == 6 { -1i8 } else if j == 7 { -1i8 } else if j == 8 { -1i8 } else if j == 9 { -1i8 } else if j == 10 { -1i8 } else if j == 11 { -1i8 } else if j == 12 { -1i8 } else if j == 13 { -1i8 } else { -1i8 } }
    else if c == 1 { if j == 0 { 8i8 } else if j == 1 { 6i8 } else if j == 2 { 5i8 } else if j == 3 { 8i8 } else if j == 4 { 0i8 } else if j == 5 { 6i8 } else if j == 6 { 0i8 } else if j == 7 { 2i8 } else if j == 8 { 6i8 } else if j == 9 { -1i8 } else if j == 10 { -1i8 } else if j == 11 { -1i8 } else if j == 12 { -1i8 } else if j == 13 { -1i8 } else { -1i8 } }
    else if c == 2 { if j == 0 { 1i8 } else if j == 1 { 6i8 } else if j == 2 { 5i8 } else if j == 3 { 1i8 } else if j == 4 { 2i8 } else if j == 5 { 6i8 } else if j == 6 { 3i8 } else if j == 7 { 0i8 } else if j == 8 { 11i8 } else if j == 9 { -1i8 } else if j == 10 { -1i8 } else if j == 11 { -1i8 } else if j == 12 { -1i8 } else if j == 13 { -1i8 } else { -1i8 } }
    else if c == 3 { if j == 0 { 3i8 } else if j == 1 { 8i8 } else if j == 2 { 11i8 } else if j == 3 { 3i8 } else if j == 4 { 6i8 } else if j == 5 { 8i8 } else if j == 6 { 3i8 } else if j == 7 { 2i8 } else if j == 8 { 6i8 } else if j == 9 { 5i8 } else if j == 10 { 8i8 } else if j == 11 { 6i8 } else if j == 12 { -1i8 } else if j == 13 { -1i8 } else { -1i8 } }
    else if c == 4 { if j == 0 { 1i8 } else if j == 1 { 4i8 } else if j == 2 { 8i8 } else if j == 3 { 1i8 } else if j == 4 { 2i8 } else if j == 5 { 4i8 } else if j == 6 { 2i8 } else if j == 7 { 6i8 } else if j == 8 { 4i8 } else if j == 9 { -1i8 } else if j == 10 { -1i8 } else if j == 11 { -1i8 } else if j == 12 { -1i8 } else if j == 13 { -1i8 } else { -1i8 } }
    else if c == 5 { if j == 0 { 2i8 } else if j == 1 { 6i8 } else if j == 2 { 0i8 } else if j == 3 { 6i8 } else if j == 4 { 4i8 } else if j == 5 { 0i8 } else if j == 6 { -1i8 } else if j == 7 { -1i8 } else if j == 8 { -1i8 } else if j == 9 { -1i8 } else if j == 10 { -1i8 } else if j == 11 { -1i8 } else if j == 12 { -1i8 } else if j == 13 { -1i8 } else { -1i8 } }
    else if c == 6 { if j == 0 { 3i8 } else if j == 1 { 0i8 } else if j == 2 { 11i8 } else if j == 3 { 1i8 } else if j == 4 { 2i8 } else if j == 5 { 8i8 } else if j == 6 { 2i8 } else if j == 7 { 4i8 } else if j == 8 { 8i8 } else if j == 9 { 2i8 } else if j == 10 { 6i8 } else if j == 11 { 4i8 } else if j == 12 { -1i8 } else if j == 13 { -1i8 } else { -1i8 } }
    else if c == 7 { if j == 0 { 11i8 } else if j == 1 { 3i8 } else if j == 2 { 2i8 } else if j == 3 { 11i8 } else if j == 4 { 2i8 } else if j == 5 { 4i8 } else if j == 6 { 4i8 } else if j == 7 { 2i8 } else if j == 8 { 6i8 } else if j == 9 { -1i8 } else if j == 10 { -1i8 } else if j == 11 { -1i8 } else if j == 12 { -1i8 } else if j == 13 { -1i8 } else { -1i8 } }
    else if c == 8 { if j == 0 { 6i8 } else if j == 1 { 1i8 } else if j == 2 { 2i8 } else if j == 3 { 6i8 } else if j == 4 { 5i8 } else if j == 5 { 1i8 } else if j == 6 { 4i8 } else if j == 7 { 7i8 } else if j == 8 { 11i8 } else if j == 9 { -1i8 } else if j == 10 { -1i8 } else if j == 11 { -1i8 } else if j == 12 { -1i8 } else if j == 13 { -1i8 } else { -1i8 } }
    else if c == 9 { if j == 0 { 7i8 } else if j == 1 { 11i8 } else if j == 2 { 4i8 } else if j == 3 { 6i8 } else if j == 4 { 5i8 } else if j == 5 { 0i8 } else if j == 6 { 6i8 } else if j == 7 { 0i8 } else if j == 8 { 2i8 } else if j == 9 { 0i8 } else if j == 10 { 5i8 } else if j == 11 { 8i8 } else if j == 12 { -1i8 } else if j == 13 { -1i8 } else { -1i8 } }
    else if c == 10 { if j == 0 { 3i8 } else if j == 1 { 0i8 } else if j == 2 { 7i8 } else if j == 3 { 7i8 } else if j == 4 { 0i8 } else if j == 5 { 4i8 } else if j == 6 { 1i8 } else if j == 7 { 2i8 } else if j == 8 { 6i8 } else if j == 9 { 1i8 } else if j == 10 { 6i8 } else if j == 11 { 5i8 } else if j == 12 { -1i8 } else if j == 13 { -1i8 } else { -1i8 } }
    else if c == 11 { if j == 0 { 7i8 } else if j == 1 { 3i8 } else if j == 2 { 8i8 } else if j == 3 { 7i8 } else if j == 4 { 8i8 } else if j == 5 { 4i8 } else if j == 6 { 3i8 } else if j == 7 { 2i8 } else if j == 8 { 8i8 } else if j == 9 { 5i8 } else if j == 10 { 8i8 } else if j == 11 { 6i8 } else if j == 12 { 2i8 } else if j == 13 { 6i8 } else { 8i8 } }
    else if c == 12 { if j == 0 { 7i8 } else if j == 1 { 2i8 } else if j == 2 { 6i8 } else if j == 3 { 7i8 } else if j == 4 { 8i8 } else if j == 5 { 2i8 } else if j == 6 { 7i8 } else if j == 7 { 11i8 } else if j == 8 { 8i8 } else if j == 9 { 8i8 } else if j == 10 { 1i8 } else if j == 11 { 2i8 } else if j == 12 { -1i8 } else if j == 13 { -1i8 } else { -1i8 } }
    else if c == 13 { if j == 0 { 7i8 } else if j == 1 { 11i8 } else if j == 2 { 0i8 } else if j == 3 { 7i8 } else if j == 4 { 0i8 } else if j == 5 { 6i8 } else if j == 6 { 6i8 } else if j == 7 { 0i8 } else if j == 8 { 2i8 } else if j == 9 { -1i8 } else if j == 10 { -1i8 } else if j == 11 { -1i8 } else if j == 12 { -1i8 } else if j == 13 { -1i8 } else { -1i8 } }
    else if c == 14 { if j == 0 { 2i8 } else if j == 1 { 6i8 } else if j == 2 { 8i8 } else if j == 3 { 2i8 } else if j == 4 { 8i8 } else if j == 5 { 1i8 } else if j == 6 { 6i8 } else if j == 7 { 7i8 } else if j == 8 { 8i8 } else if j == 9 { 0i8 } else if j == 10 { 8i8 } else if j == 11 { 3i8 } else if j == 12 { 7i8 } else if j == 13 { 3i8 } else { 8i8 } }
    else { if j == 0 { 2i8 } else if j == 1 { 6i8 } else if j == 2 { 7i8 } else if j == 3 { 3i8 } else if j == 4 { 2i8 } else if j == 5 { 7i8 } else if j == 6 { -1i8 } else if j == 7 { -1i8 } else if j == 8 { -1i8 } else if j == 9 { -1i8 } else if j == 10 { -1i8 } else if j == 11 { -1i8 } else if j == 12 { -1i8 } else if j == 13 { -1i8 } else { -1i8 } }
}

pub open spec fn classic_tri_6(c: int, j: int) -> i8 {
    if c == 0 { if j == 0 { 2i8 } else if j == 1 { 3i8 } else if j == 2 { 10i8 } else if j == 3 { 9i8 } else if j == 4 { 6i8 } else if j == 5 { 5i8 } else if j == 6 { -1i8 } else if j == 7 { -1i8 } else if j == 8 { -1i8 } else if j == 9 { -1i8 } else if j == 10 { -1i8 } else if j == 11 { -1i8 } else if j == 12 { -1i8 } else if j == 13 { -1i8 } else { -1i8 } }
    else if c == 1 { if j == 0 { 10i8 } else if j == 1 { 2i8 } else if j == 2 { 3i8 } else if j == 3 { 9i8 } else if j == 4 { 6i8 } else if j == 5 { 5i8 } else if j == 6 { 0i8 } else if j == 7 { 1i8 } else if j == 8 { 8i8 } else if j == 9 { -1i8 } else if j == 10 { -1i8 } else if j == 11 { -1i8 } else if j == 12 { -1i8 } else if j == 13 { -1i8 } else { -1i8 } }
    else if c == 2 { if j == 0 { 10i8 } else if j == 1 { 0i8 } else if j == 2 { 11i8 } else if j == 3 { 10i8 } else if j == 4 { 2i8 } else if j == 5 { 0i8 } else if j == 6 { 9i8 } else if j == 7 { 6i8 } else if j == 8 { 5i8 } else if j == 9 { -1i8 } else if j == 10 { -1i8 } else if j == 11 { -1i8 } else if j == 12 { -1i8 } else if j == 13 { -1i8 } else { -1i8 } }
    else if c == 3 { if j == 0 { 6i8 } else if j == 1 { 5i8 } else if j == 2 { 9i8 } else if j == 3 { 10i8 } else if j == 4 { 2i8 } else if j == 5 { 8i8 } else if j == 6 { 10i8 } else if j == 7 { 8i8 } else if j == 8 { 11i8 } else if j == 9 { 8i8 } else if j == 10 { 2i8 } else if j == 11 { 1i8 } else if j == 12 { -1i8 } else if j == 13 { -1i8 } else { -1i8 } }
    else if c == 4 { if j == 0 { 9i8 } else if j == 1 { 4i8 } else if j == 2 { 8i8 } else if j == 3 { 9i8 } else if j == 4 { 6i8 } else if j == 5 { 4i8 } else if j == 6 { 10i8 } else if j == 7 { 2i8 } else if j == 8 { 3i8 } else if j == 9 { -1i8 } else if j == 10 { -1i8 } else if j == 11 { -1i8 } else if j == 12 { -1i8 } else if j == 13 { -1i8 } else { -1i8 } }
    else if c == 5 { if j == 0 { 3i8 } else if j == 1 { 10i8 } else if j == 2 { 2i8 } else if j == 3 { 0i8 } else if j == 4 { 1i8 } else if j == 5 { 6i8 } else if j == 6 { 0i8 } else if j == 7 { 6i8 } else if j == 8 { 4i8 } else if j == 9 { 6i8 } else if j == 10 { 1i8 } else if j == 11 { 9i8 } else if j == 12 { -1i8 } else if j == 13 { -1i8 } else { -1i8 } }
    else if c == 6 { if j == 0 { 6i8 } else if j == 1 { 8i8 } else if j == 2 { 9i8 } else if j == 3 { 6i8 } else if j == 4 { 4i8 } else if j == 5 { 8i8 } else if j == 6 { 2i8 } else if j == 7 { 0i8 } else if j == 8 { 10i8 } else if j == 9 { 0i8 } else if j == 10 { 11i8 } else if j == 11 { 10i8 } else if j == 12 { -1i8 } else if j == 13 { -1i8 } else { -1i8 } }
    else if c == 7 { if j == 0 { 6i8 } else if j == 1 { 4i8 } else if j == 2 { 1i8 } else if j == 3 { 6i8 } else if j == 4 { 1i8 } else if j == 5 { 9i8 } else if j == 6 { 4i8 } else if j == 7 { 11i8 } else if j == 8 { 1i8 } else if j == 9 { 2i8 } else if j == 10 { 1i8 } else if j == 11 { 10i8 } else if j == 12 { 11i8 } else if j == 13 { 10i8 } else { 1i8 } }
    else if c == 8 { if j == 0 { 3i8 } else if j == 1 { 10i8 } else if j == 2 { 2i8 } else if j == 3 { 7i8 } else if j == 4 { 11i8 } else if j == 5 { 4i8 } else if j == 6 { 9i8 } else if j == 7 { 6i8 } else if j == 8 { 5i8 } else if j == 9 { -1i8 } else if j == 10 { -1i8 } else if j == 11 { -1i8 } else if j == 12 { -1i8 } else if j == 13 { -1i8 } else { -1i8 } }
    else if c == 9 { if j == 0 { 2i8 } else if j == 1 { 3i8 } else if j == 2 { 10i8 } else if j == 3 { 6i8 } else if j == 4 { 5i8 } else if j == 5 { 9i8 } else if j == 6 { 0i8 } else if j == 7 { 1i8 } else if j == 8 { 8i8 } else if j == 9 { 7i8 } else if j == 10 { 11i8 } else if j == 11 { 4i8 } else if j == 12 { -1i8 } else if j == 13 { -1i8 } else { -1i8 } }
    else if c == 10 { if j == 0 { 9i8 } else if j == 1 { 6i8 } else if j == 2 { 5i8 } else if j == 3 { 10i8 } else if j == 4 { 2i8 } else if j == 5 { 7i8 } else if j == 6 { 2i8 } else if j == 7 { 4i8 } else if j == 8 { 7i8 } else if j == 9 { 2i8 } else if j == 10 { 0i8 } else if j == 11 { 4i8 } else if j == 12 { -1i8 } else if j == 13 { -1i8 } else { -1i8 } }
    else if c == 11 { if j == 0 { 2i8 } else if j == 1 { 7i8 } else if j == 2 { 10i8 } else if j == 3 { 2i8 } else if j == 4 { 4i8 } else if j == 5 { 7i8 } else if j == 6 { 2i8 } else if j == 7 { 1i8 } else if j == 8 { 4i8 } else if j == 9 { 8i8 } else if j == 10 { 4i8 } else if j == 11 { 1i8 } else if j == 12 { 9i8 } else if j == 13 { 6i8 } else { 5i8 } }
    else if c == 12 { if j == 0 { 2i8 } else if j == 1 { 3i8 } else if j == 2 { 10i8 } else if j == 3 { 9i8 } else if j == 4 { 6i8 } else if j == 5 { 11i8 } else if j == 6 { 9i8 } else if j == 7 { 11i8 } else if j == 8 { 8i8 } else if j == 9 { 11i8 } else if j == 10 { 6i8 } else if j == 11 { 7i8 } else if j == 12 { -1i8 } else if j == 13 { -1i8 } else { -1i8 } }
    else if c == 13 { if j == 0 { 1i8 } else if j == 1 { 11i8 } else if j == 2 { 0i8 } else if j == 3 { 1i8 } else if j == 4 { 7i8 } else if j == 5 { 11i8 } else if j == 6 { 1i8 } else if j == 7 { 9i8 } else if j == 8 { 7i8 } else if j == 9 { 6i8 } else if j == 10 { 7i8 } else if j == 11 { 9i8 } else if j == 12 { 2i8 } else if j == 13 { 3i8 } else { 10i8 } }
    else if c == 14 { if j == 0 { 2i8 } else if j == 1 { 0i8 } else if j == 2 { 7i8 } else if j == 3 { 2i8 } else if j == 4 { 7i8 } else if j == 5 { 10i8 } else if j == 6 { 0i8 } else if j == 7 { 8i8 } else if j == 8 { 7i8 } else if j == 9 { 6i8 } else if j == 10 { 7i8 } else if j == 11 { 9i8 } else if j == 12 { 8i8 } else if j == 13 { 9i8 } else { 7i8 } }
    else { if j == 0 { 9i8 } else if j == 1 { 6i8 } else if j == 2 { 7i8 } else if j == 3 { 9i8 } else if j == 4 { 7i8 } else if j == 5 { 1i8 } else if j == 6 { 10i8 } else if j == 7 { 2i8 } else if j == 8 { 7i8 } else if j == 9 { 2i8 } else if j == 10 { 1i8 } else if j == 11 { 7i8 } else if j == 12 { -1i8 } else if j == 13 { -1i8 } else { -1i8 } }
}

pub open spec fn classic_tri_7(c: int, j: int) -> i8 {
    if c == 0 { if j == 0 { 6i8 } else if j == 1 { 3i8 } else if j == 2 { 10i8 } else if j == 3 { 6i8 } else if j == 4 { 5i8 } else if j == 5 { 3i8 } else if j == 6 { 5i8 } else if j == 7 { 1i8 } else if j == 8 { 3i8 } else if j == 9 { -1i8 } else if j == 10 { -1i8 } else if j == 11 { -1i8 } else if j == 12 { -1i8 } else if j == 13 { -1i8 } else { -1i8 } }
    else if c == 1 { if j == 0 { 6i8 } else if j == 1 { 5i8 } else if j == 2 { 8i8 } else if j == 3 { 10i8 } else if j == 4 { 6i8 } else if j == 5 { 8i8 } else if j == 6 { 10i8 } else if j == 7 { 8i8 } else if j == 8 { 0i8 } else if j == 9 { 10i8 } else if j == 10 { 0i8 } else if j == 11 { 3i8 } else if j == 12 { -1i8 } else if j == 13 { -1i8 } else { -1i8 } }
    else if c == 2 { if j == 0 { 0i8 } else if j == 1 { 11i8 } else if j == 2 { 10i8 } else if j == 3 { 0i8 } else if j == 4 { 10i8 } else if j == 5 { 5i8 } else if j == 6 { 0i8 } else if j == 7 { 5i8 } else if j == 8 { 1i8 } else if j == 9 { 5i8 } else if j == 10 { 10i8 } else if j == 11 { 6i8 } else if j == 12 { -1i8 } else if j == 13 { -1i8 } else { -1i8 } }
    else if c == 3 { if j == 0 { 6i8 } else if j == 1 { 5i8 } else if j == 2 { 8i8 } else if j == 3 { 6i8 } else if j == 4 { 8i8 } else if j == 5 { 10i8 } else if j == 6 { 10i8 } else if j == 7 { 8i8 } else if j == 8 { 11i8 } else if j == 9 { -1i8 } else if j == 10 { -1i8 } else if j == 11 { -1i8 } else if j == 12 { -1i8 } else if j == 13 { -1i8 } else { -1i8 } }
    else if c == 4 { if j == 0 { 10i8 } else if j == 1 { 6i8 } else if j == 2 { 4i8 } else if j == 3 { 10i8 } else if j == 4 { 4i8 } else if j == 5 { 1i8 } else if j == 6 { 10i8 } else if j == 7 { 1i8 } else if j == 8 { 3i8 } else if j == 9 { 8i8 } else if j == 10 { 1i8 } else if j == 11 { 4i8 } else if j == 12 { -1i8 } else if j == 13 { -1i8 } else { -1i8 } }
    else if c == 5 { if j == 0 { 3i8 } else if j == 1 { 10i8 } else if j == 2 { 6i8 } else if j == 3 { 3i8 } else if j == 4 { 6i8 } else if j == 5 { 0i8 } else if j == 6 { 0i8 } else if j == 7 { 6i8 } else if j == 8 { 4i8 } else if j == 9 { -1i8 } else if j == 10 { -1i8 } else if j == 11 { -1i8 } else if j == 12 { -1i8 } else if j == 13 { -1i8 } else { -1i8 } }
    else if c == 6 { if j == 0 { 11i8 } else if j == 1 { 10i8 } else if j == 2 { 1i8 } else if j == 3 { 11i8 } else if j == 4 { 1i8 } else if j == 5 { 0i8 } else if j == 6 { 10i8 } else if j == 7 { 6i8 } else if j == 8 { 1i8 } else if j == 9 { 8i8 } else if j == 10 { 1i8 } else if j == 11 { 4i8 } else if j == 12 { 6i8 } else if j == 13 { 4i8 } else { 1i8 } }
    else if c == 7 { if j == 0 { 11i8 } else if j == 1 { 10i8 } else if j == 2 { 6i8 } else if j == 3 { 4i8 } else if j == 4 { 11i8 } else if j == 5 { 6i8 } else if j == 6 { -1i8 } else if j == 7 { -1i8 } else if j == 8 { -1i8 } else if j == 9 { -1i8 } else if j == 10 { -1i8 } else if j == 11 { -1i8 } else if j == 12 { -1i8 } else if j == 13 { -1i8 } else { -1i8 } }
    else if c == 8 { if j == 0 { 11i8 } else if j == 1 { 4i8 } else if j == 2 { 7i8 } else if j == 3 { 3i8 } else if j == 4 { 10i8 } else if j == 5 { 5i8 } else if j == 6 { 3i8 } else if j == 7 { 5i8 } else if j == 8 { 1i8 } else if j == 9 { 5i8 } else if j == 10 { 10i8 } else if j == 11 { 6i8 } else if j == 12 { -1i8 } else if j == 13 { -1i8 } else { -1i8 } }
    else if c == 9 { if j == 0 { 10i8 } else if j == 1 { 0i8 } else if j == 2 { 3i8 } else if j == 3 { 10i8 } else if j == 4 { 8i8 } else if j == 5 { 0i8 } else if j == 6 { 10i8 } else if j == 7 { 6i8 } else if j == 8 { 8i8 } else if j == 9 { 5i8 } else if j == 10 { 8i8 } else if j == 11 { 6i8 } else if j == 12 { 7i8 } else if j == 13 { 11i8 } else { 4i8 } }
    else if c == 10 { if j == 0 { 5i8 } else if j == 1 { 1i8 } else if j == 2 { 10i8 } else if j == 3 { 5i8 } else if j == 4 { 10i8 } else if j == 5 { 6i8 } else if j == 6 { 1i8 } else if j == 7 { 0i8 } else if j == 8 { 10i8 } else if j == 9 { 7i8 } else if j == 10 { 10i8 } else if j == 11 { 4i8 } else if j == 12 { 0i8 } else if j == 13 { 4i8 } else { 10i8 } }
    else if c == 11 { if j == 0 { 4i8 } else if j == 1 { 7i8 } else if j == 2 { 10i8 } else if j == 3 { 4i8 } else if j == 4 { 10i8 } else if j == 5 { 8i8 } else if j == 6 { 6i8 } else if j == 7 { 5i8 } else if j == 8 { 10i8 } else if j == 9 { 5i8 } else if j == 10 { 8i8 } else if j == 11 { 10i8 } else if j == 12 { -1i8 } else if j == 13 { -1i8 } else { -1i8 } }
    else if c == 12 { if j == 0 { 11i8 } else if j == 1 { 8i8 } else if j == 2 { 6i8 } else if j == 3 { 11i8 } else if j == 4 { 6i8 } else if j == 5 { 7i8 } else if j == 6 { 8i8 } else if j == 7 { 1i8 } else if j == 8 { 6i8 } else if j == 9 { 10i8 } else if j == 10 { 6i8 } else if j == 11 { 3i8 } else if j == 12 { 1i8 } else if j == 13 { 3i8 } else { 6i8 } }
    else if c == 13 { if j == 0 { 7i8 } else if j == 1 { 11i8 } else if j == 2 { 0i8 } else if j == 3 { 7i8 } else if j == 4 { 0i8 } else if j == 5 { 6i8 } else if j == 6 { 3i8 } else if j == 7 { 10i8 } else if j == 8 { 0i8 } else if j == 9 { 10i8 } else if j == 10 { 6i8 } else if j == 11 { 0i8 } else if j == 12 { -1i8 } else if j == 13 { -1i8 } else { -1i8 } }
    else if c == 14 { if j == 0 { 10i8 } else if j == 1 { 6i8 } else if j == 2 { 7i8 } else if j == 3 { 0i8 } else if j == 4 { 8i8 } else if j == 5 { 1i8 } else if j == 6 { -1i8 } else if j == 7 { -1i8 } else if j == 8 { -1i8 } else if j == 9 { -1i8 } else if j == 10 { -1i8 } else if j == 11 { -1i8 } else if j == 12 { -1i8 } else if j == 13 { -1i8 } else { -1i8 } }
    else { if j == 0 { 10i8 } else if j == 1 { 6i8 } else if j == 2 { 7i8 } else if j == 3 { -1i8 } else if j == 4 { -1i8 } else if j == 5 { -1i8 } else if j == 6 { -1i8 } else if j == 7 { -1i8 } else if j == 8 { -1i8 } else if j == 9 { -1i8 } else if j == 10 { -1i8 } else if j == 11 { -1i8 } else if j == 12 { -1i8 } else if j == 13 { -1i8 } else { -1i8 } }
}

pub open spec fn classic_tri_8(c: int, j: int) -> i8 {
    if c == 0 { if j == 0 { 10i8 } else if j == 1 { 7i8 } else if j == 2 { 6i8 } else if j == 3 { -1i8 } else if j == 4 { -1i8 } else if j == 5 { -1i8 } else if j == 6 { -1i8 } else if j == 7 { -1i8 } else if j == 8 { -1i8 } else if j == 9 { -1i8 } else if j == 10 { -1i8 } else if j == 11 { -1i8 } else if j == 12 { -1i8 } else if j == 13 { -1i8 } else { -1i8 } }
    else if c == 1 { if j == 0 { 10i8 } else if j == 1 { 7i8 } else if j == 2 { 6i8 } else if j == 3 { 0i8 } else if j == 4 { 1i8 } else if j == 5 { 8i8 } else if j == 6 { -1i8 } else if j == 7 { -1i8 } else if j == 8 { -1i8 } else if j == 9 { -1i8 } else if j == 10 { -1i8 } else if j == 11 { -1i8 } else if j == 12 { -1i8 } else if j == 13 { -1i8 } else { -1i8 } }
    else if c == 2 { if j == 0 { 3i8 } else if j == 1 { 0i8 } else if j == 2 { 11i8 } else if j == 3 { 10i8 } else if j == 4 { 7i8 } else if j == 5 { 6i8 } else if j == 6 { -1i8 } else if j == 7 { -1i8 } else if j == 8 { -1i8 } else if j == 9 { -1i8 } else if j == 10 { -1i8 } else if j == 11 { -1i8 } else if j == 12 { -1i8 } else if j == 13 { -1i8 } else { -1i8 } }
    else if c == 3 { if j == 0 { 11i8 } else if j == 1 { 1i8 } else if j == 2 { 8i8 } else if j == 3 { 11i8 } else if j == 4 { 3i8 } else if j == 5 { 1i8 } else if j == 6 { 10i8 } else if j == 7 { 7i8 } else if j == 8 { 6i8 } else if j == 9 { -1i8 } else if j == 10 { -1i8 } else if j == 11 { -1i8 } else if j == 12 { -1i8 } else if j == 13 { -1i8 } else { -1i8 } }
    else if c == 4 { if j == 0 { 6i8 } else if j == 1 { 10i8 } else if j == 2 { 7i8 } else if j == 3 { 5i8 } else if j == 4 { 4i8 } else if j == 5 { 8i8 } else if j == 6 { -1i8 } else if j == 7 { -1i8 } else if j == 8 { -1i8 } else if j == 9 { -1i8 } else if j == 10 { -1i8 } else if j == 11 { -1i8 } else if j == 12 { -1i8 } else if j == 13 { -1i8 } else { -1i8 } }
    else if c == 5 { if j == 0 { 5i8 } else if j == 1 { 0i8 } else if j == 2 { 1i8 } else if j == 3 { 5i8 } else if j == 4 { 4i8 } else if j == 5 { 0i8 } else if j == 6 { 7i8 } else if j == 7 { 6i8 } else if j == 8 { 10i8 } else if j == 9 { -1i8 } else if j == 10 { -1i8 } else if j == 11 { -1i8 } else if j == 12 { -1i8 } else if j == 13 { -1i8 } else { -1i8 } }
    else if c == 6 { if j == 0 { 10i8 } else if j == 1 { 7i8 } else if j == 2 { 6i8 } else if j == 3 { 11i8 } else if j == 4 { 3i8 } else if j == 5 { 0i8 } else if j == 6 { 5i8 } else if j == 7 { 4i8 } else if j == 8 { 8i8 } else if j == 9 { -1i8 } else if j == 10 { -1i8 } else if j == 11 { -1i8 } else if j == 12 { -1i8 } else if j == 13 { -1i8 } else { -1i8 } }
    else if c == 7 { if j == 0 { 10i8 } else if j == 1 { 7i8 } else if j == 2 { 6i8 } else if j == 3 { 11i8 } else if j == 4 { 3i8 } else if j == 5 { 4i8 } else if j == 6 { 3i8 } else if j == 7 { 5i8 } else if j == 8 { 4i8 } else if j == 9 { 3i8 } else if j == 10 { 1i8 } else if j == 11 { 5i8 } else if j == 12 { -1i8 } else if j == 13 { -1i8 } else { -1i8 } }
    else if c == 8 { if j == 0 { 11i8 } else if j == 1 { 6i8 } else if j == 2 { 10i8 } else if j == 3 { 4i8 } else if j == 4 { 6i8 } else if j == 5 { 11i8 } else if j == 6 { -1i8 } else if j == 7 { -1i8 } else if j == 8 { -1i8 } else if j == 9 { -1i8 } else if j == 10 { -1i8 } else if j == 11 { -1i8 } else if j == 12 { -1i8 } else if j == 13 { -1i8 } else { -1i8 } }
    else if c == 9 { if j == 0 { 11i8 } else if j == 1 { 6i8 } else if j == 2 { 10i8 } else if j == 3 { 11i8 } else if j == 4 { 4i8 } else if j == 5 { 6i8 } else if j == 6 { 8i8 } else if j == 7 { 0i8 } else if j == 8 { 1i8 } else if j == 9 { -1i8 } else if j == 10 { -1i8 } else if j == 11 { -1i8 } else if j == 12 { -1i8 } else if j == 13 { -1i8 } else { -1i8 } }
    else if c == 10 { if j == 0 { 3i8 } else if j == 1 { 6i8 } else if j == 2 { 10i8 } else if j == 3 { 3i8 } else if j == 4 { 0i8 } else if j == 5 { 6i8 } else if j == 6 { 0i8 } else if j == 7 { 4i8 } else if j == 8 { 6i8 } else if j == 9 { -1i8 } else if j == 10 { -1i8 } else if j == 11 { -1i8 } else if j == 12 { -1i8 } else if j == 13 { -1i8 } else { -1i8 } }
    else if c == 11 { if j == 0 { 10i8 } else if j == 1 { 4i8 } else if j == 2 { 6i8 } else if j == 3 { 10i8 } else if j == 4 { 1i8 } else if j == 5 { 4i8 } else if j == 6 { 10i8 } else if j == 7 { 3i8 } else if j == 8 { 1i8 } else if j == 9 { 8i8 } else if j == 10 { 4i8 } else if j == 11 { 1i8 } else if j == 12 { -1i8 } else if j == 13 { -1i8 } else { -1i8 } }
    else if c == 12 { if j == 0 { 6i8 } else if j == 1 { 8i8 } else if j == 2 { 5i8 } else if j == 3 { 6i8 } else if j == 4 { 10i8 } else if j == 5 { 8i8 } else if j == 6 { 10i8 } else if j == 7 { 11i8 } else if j == 8 { 8i8 } else if j == 9 { -1i8 } else if j == 10 { -1i8 } else if j == 11 { -1i8 } else if j == 12 { -1i8 } else if j == 13 { -1i8 } else { -1i8 } }
    else if c == 13 { if j == 0 { 0i8 } else if j == 1 { 10i8 } else if j == 2 { 11i8 } else if j == 3 { 0i8 } else if j == 4 { 5i8 } else if j == 5 { 10i8 } else if j == 6 { 0i8 } else if j == 7 { 1i8 } else if j == 8 { 5i8 } else if j == 9 { 5i8 } else if j == 10 { 6i8 } else if j == 11 { 10i8 } else if j == 12 { -1i8 } else if j == 13 { -1i8 } else { -1i8 } }
    else if c == 14 { if j == 0 { 6i8 } else if j == 1 { 8i8 } else if j == 2 { 5i8 } else if j == 3 { 10i8 } else if j == 4 { 8i8 } else if j == 5 { 6i8 } else if j == 6 { 10i8 } else if j == 7 { 0i8 } else if j == 8 { 8i8 } else if j == 9 { 10i8 } else if j == 10 { 3i8 } else if j == 11 { 0i8 } else if j == 12 { -1i8 } else if j == 13 { -1i8 } else { -1i8 } }
    else { if j == 0 { 6i8 } else if j == 1 { 10i8 } else if j == 2 { 3i8 } else if j == 3 { 6i8 } else if j == 4 { 3i8 } else if j == 5 { 5i8 } else if j == 6 { 5i8 } else if j == 7 { 3i8 } else if j == 8 { 1i8 } else if j == 9 { -1i8 } else if j == 10 { -1i8 } else if j == 11 { -1i8 } else if j == 12 { -1i8 } else if j == 13 { -1i8 } else { -1i8 } }
}

pub open spec fn classic_tri_9(c: int, j: int) -> i8 {
    if c == 0 { if j == 0 { 10i8 } else if j == 1 { 7i8 } else if j == 2 { 6i8 } else if j == 3 { 2i8 } else if j == 4 { 9i8 } else if j == 5 { 1i8 } else if j == 6 { -1i8 } else if j == 7 { -1i8 } else if j == 8 { -1i8 } else if j == 9 { -1i8 } else if j == 10 { -1i8 } else if j == 11 { -1i8 } else if j == 12 { -1i8 } else if j == 13 { -1i8 } else { -1i8 } }
    else if c == 1 { if j == 0 { 2i8 } else if j == 1 { 8i8 } else if j == 2 { 0i8 } else if j == 3 { 2i8 } else if j == 4 { 9i8 } else if j == 5 { 8i8 } else if j == 6 { 6i8 } else if j == 7 { 10i8 } else if j == 8 { 7i8 } else if j == 9 { -1i8 } else if j == 10 { -1i8 } else if j == 11 { -1i8 } else if j == 12 { -1i8 } else if j == 13 { -1i8 } else { -1i8 } }
    else if c == 2 { if j == 0 { 1i8 } else if j == 1 { 2i8 } else if j == 2 { 9i8 } else if j == 3 { 3i8 } else if j == 4 { 0i8 } else if j == 5 { 11i8 } else if j == 6 { 6i8 } else if j == 7 { 10i8 } else if j == 8 { 7i8 } else if j == 9 { -1i8 } else if j == 10 { -1i8 } else if j == 11 { -1i8 } else if j == 12 { -1i8 } else if j == 13 { -1i8 } else { -1i8 } }
    else if c == 3 { if j == 0 { 6i8 } else if j == 1 { 10i8 } else if j == 2 { 7i8 } else if j == 3 { 2i8 } else if j == 4 { 9i8 } else if j == 5 { 3i8 } else if j == 6 { 9i8 } else if j == 7 { 11i8 } else if j == 8 { 3i8 } else if j == 9 { 9i8 } else if j == 10 { 8i8 } else if j == 11 { 11i8 } else if j == 12 { -1i8 } else if j == 13 { -1i8 } else { -1i8 } }
    else if c == 4 { if j == 0 { 2i8 } else if j == 1 { 9i8 } else if j == 2 { 1i8 } else if j == 3 { 6i8 } else if j == 4 { 10i8 } else if j == 5 { 7i8 } else if j == 6 { 8i8 } else if j == 7 { 5i8 } else if j == 8 { 4i8 } else if j == 9 { -1i8 } else if j == 10 { -1i8 } else if j == 11 { -1i8 } else if j == 12 { -1i8 } else if j == 13 { -1i8 } else { -1i8 } }
    else if c == 5 { if j == 0 { 10i8 } else if j == 1 { 7i8 } else if j == 2 { 6i8 } else if j == 3 { 2i8 } else if j == 4 { 9i8 } else if j == 5 { 4i8 } else if j == 6 { 2i8 } else if j == 7 { 4i8 } else if j == 8 { 0i8 } else if j == 9 { 4i8 } else if j == 10 { 9i8 } else if j == 11 { 5i8 } else if j == 12 { -1i8 } else if j == 13 { -1i8 } else { -1i8 } }
    else if c == 6 { if j == 0 { 4i8 } else if j == 1 { 8i8 } else if j == 2 { 5i8 } else if j == 3 { 3i8 } else if j == 4 { 0i8 } else if j == 5 { 11i8 } else if j == 6 { 2i8 } else if j == 7 { 9i8 } else if j == 8 { 1i8 } else if j == 9 { 6i8 } else if j == 10 { 10i8 } else if j == 11 { 7i8 } else if j == 12 { -1i8 } else if j == 13 { -1i8 } else { -1i8 } }
    else if c == 7 { if j == 0 { 3i8 } else if j == 1 { 4i8 } else if j == 2 { 11i8 } else if j == 3 { 3i8 } else if j == 4 { 5i8 } else if j == 5 { 4i8 } else if j == 6 { 3i8 } else if j == 7 { 2i8 } else if j == 8 { 5i8 } else if j == 9 { 9i8 } else if j == 10 { 5i8 } else if j == 11 { 2i8 } else if j == 12 { 10i8 } else if j == 13 { 7i8 } else { 6i8 } }
    else if c == 8 { if j == 0 { 6i8 } else if j == 1 { 11i8 } else if j == 2 { 4i8 } else if j == 3 { 6i8 } else if j == 4 { 10i8 } else if j == 5 { 11i8 } else if j == 6 { 2i8 } else if j == 7 { 9i8 } else if j == 8 { 1i8 } else if j == 9 { -1i8 } else if j == 10 { -1i8 } else if j == 11 { -1i8 } else if j == 12 { -1i8 } else if j == 13 { -1i8 } else { -1i8 } }
    else if c == 9 { if j == 0 { 2i8 } else if j == 1 { 9i8 } else if j == 2 { 0i8 } else if j == 3 { 0i8 } else if j == 4 { 9i8 } else if j == 5 { 8i8 } else if j == 6 { 6i8 } else if j == 7 { 10i8 } else if j == 8 { 11i8 } else if j == 9 { 6i8 } else if j == 10 { 11i8 } else if j == 11 { 4i8 } else if j == 12 { -1i8 } else if j == 13 { -1i8 } else { -1i8 } }
    else if c == 10 { if j == 0 { 1i8 } else if j == 1 { 2i8 } else if j == 2 { 9i8 } else if j == 3 { 3i8 } else if j == 4 { 0i8 } else if j == 5 { 10i8 } else if j == 6 { 0i8 } else if j == 7 { 6i8 } else if j == 8 { 10i8 } else if j == 9 { 0i8 } else if j == 10 { 4i8 } else if j == 11 { 6i8 } else if j == 12 { -1i8 } else if j == 13 { -1i8 } else { -1i8 } }
    else if c == 11 { if j == 0 { 9i8 } else if j == 1 { 8i8 } else if j == 2 { 3i8 } else if j == 3 { 9i8 } else if j == 4 { 3i8 } else if j == 5 { 2i8 } else if j == 6 { 8i8 } else if j == 7 { 4i8 } else if j == 8 { 3i8 } else if j == 9 { 10i8 } else if j == 10 { 3i8 } else if j == 11 { 6i8 } else if j == 12 { 4i8 } else if j == 13 { 6i8 } else { 3i8 } }
    else if c == 12 { if j == 0 { 2i8 } else if j == 1 { 9i8 } else if j == 2 { 1i8 } else if j == 3 { 6i8 } else if j == 4 { 10i8 } else if j == 5 { 5i8 } else if j == 6 { 10i8 } else if j == 7 { 8i8 } else if j == 8 { 5i8 } else if j == 9 { 10i8 } else if j == 10 { 11i8 } else if j == 11 { 8i8 } else if j == 12 { -1i8 } else if j == 13 { -1i8 } else { -1i8 } }
    else if c == 13 { if j == 0 { 10i8 } else if j == 1 { 11i8 } else if j == 2 { 5i8 } else if j == 3 { 10i8 } else if j == 4 { 5i8 } else if j == 5 { 6i8 } else if j == 6 { 11i8 } else if j == 7 { 0i8 } else if j == 8 { 5i8 } else if j == 9 { 9i8 } else if j == 10 { 5i8 } else if j == 11 { 2i8 } else if j == 12 { 0i8 } else if j == 13 { 2i8 } else { 5i8 } }
    else if c == 14 { if j == 0 { 10i8 } else if j == 1 { 5i8 } else if j == 2 { 6i8 } else if j == 3 { 10i8 } else if j == 4 { 8i8 } else if j == 5 { 5i8 } else if j == 6 { 10i8 } else if j == 7 { 3i8 } else if j == 8 { 8i8 } else if j == 9 { 0i8 } else if j == 10 { 8i8 } else if j == 11 { 3i8 } else if j == 12 { 2i8 } else if j == 13 { 9i8 } else { 1i8 } }
    else { if j == 0 { 6i8 } else if j == 1 { 10i8 } else if j == 2 { 3i8 } else if j == 3 { 6i8 } else if j == 4 { 3i8 } else if j == 5 { 5i8 } else if j == 6 { 2i8 } else if j == 7 { 9i8 } else if j == 8 { 3i8 } else if j == 9 { 9i8 } else if j == 10 { 5i8 } else if j == 11 { 3i8 } else if j == 12 { -1i8 } else if j == 13 { -1i8 } else { -1i8 } }
}

pub open spec fn classic_tri_10(c: int, j: int) -> i8 {
    if c == 0 { if j == 0 { 2i8 } else if j == 1 { 7i8 } else if j == 2 { 6i8 } else if j == 3 { 3i8 } else if j == 4 { 7i8 } else if j == 5 { 2i8 } else if j == 6 { -1i8 } else if j == 7 { -1i8 } else if j == 8 { -1i8 } else if j == 9 { -1i8 } else if j == 10 { -1i8 } else if j == 11 { -1i8 } else if j == 12 { -1i8 } else if j == 13 { -1i8 } else { -1i8 } }
    else if c == 1 { if j == 0 { 2i8 } else if j == 1 { 7i8 } else if j == 2 { 6i8 } else if j == 3 { 2i8 } else if j == 4 { 3i8 } else if j == 5 { 7i8 } else if j == 6 { 0i8 } else if j == 7 { 1i8 } else if j == 8 { 8i8 } else if j == 9 { -1i8 } else if j == 10 { -1i8 } else if j == 11 { -1i8 } else if j == 12 { -1i8 } else if j == 13 { -1i8 } else { -1i8 } }
    else if c == 2 { if j == 0 { 7i8 } else if j == 1 { 0i8 } else if j == 2 { 11i8 } else if j == 3 { 7i8 } else if j == 4 { 6i8 } else if j == 5 { 0i8 } else if j == 6 { 6i8 } else if j == 7 { 2i8 } else if j == 8 { 0i8 } else if j == 9 { -1i8 } else if j == 10 { -1i8 } else if j == 11 { -1i8 } else if j == 12 { -1i8 } else if j == 13 { -1i8 } else { -1i8 } }
    else if c == 3 { if j == 0 { 7i8 } else if j == 1 { 6i8 } else if j == 2 { 2i8 } else if j == 3 { 7i8 } else if j == 4 { 2i8 } else if j == 5 { 8i8 } else if j == 6 { 7i8 } else if j == 7 { 8i8 } else if j == 8 { 11i8 } else if j == 9 { 8i8 } else if j == 10 { 2i8 } else if j == 11 { 1i8 } else if j == 12 { -1i8 } else if j == 13 { -1i8 } else { -1i8 } }
    else if c == 4 { if j == 0 { 7i8 } else if j == 1 { 2i8 } else if j == 2 { 3i8 } else if j == 3 { 7i8 } else if j == 4 { 6i8 } else if j == 5 { 2i8 } else if j == 6 { 5i8 } else if j == 7 { 4i8 } else if j == 8 { 8i8 } else if j == 9 { -1i8 } else if j == 10 { -1i8 } else if j == 11 { -1i8 } else if j == 12 { -1i8 } else if j == 13 { -1i8 } else { -1i8 } }
    else if c == 5 { if j == 0 { 1i8 } else if j == 1 { 4i8 } else if j == 2 { 0i8 } else if j == 3 { 1i8 } else if j == 4 { 5i8 } else if j == 5 { 4i8 } else if j == 6 { 3i8 } else if j == 7 { 7i8 } else if j == 8 { 2i8 } else if j == 9 { 7i8 } else if j == 10 { 6i8 } else if j == 11 { 2i8 } else if j == 12 { -1i8 } else if j == 13 { -1i8 } else { -1i8 } }
    else if c == 6 { if j == 0 { 5i8 } else if j == 1 { 4i8 } else if j == 2 { 8i8 } else if j == 3 { 7i8 } else if j == 4 { 6i8 } else if j == 5 { 11i8 } else if j == 6 { 6i8 } else if j == 7 { 0i8 } else if j == 8 { 11i8 } else if j == 9 { 6i8 } else if j == 10 { 2i8 } else if j == 11 { 0i8 } else if j == 12 { -1i8 } else if j == 13 { -1i8 } else { -1i8 } }
    else if c == 7 { if j == 0 { 6i8 } else if j == 1 { 2i8 } else if j == 2 { 11i8 } else if j == 3 { 6i8 } else if j == 4 { 11i8 } else if j == 5 { 7i8 } else if j == 6 { 2i8 } else if j == 7 { 1i8 } else if j == 8 { 11i8 } else if j == 9 { 4i8 } else if j == 10 { 11i8 } else if j == 11 { 5i8 } else if j == 12 { 1i8 } else if j == 13 { 5i8 } else { 11i8 } }
    else if c == 8 { if j == 0 { 11i8 } else if j == 1 { 2i8 } else if j == 2 { 3i8 } else if j == 3 { 11i8 } else if j == 4 { 4i8 } else if j == 5 { 2i8 } else if j == 6 { 4i8 } else if j == 7 { 6i8 } else if j == 8 { 2i8 } else if j == 9 { -1i8 } else if j == 10 { -1i8 } else if j == 11 { -1i8 } else if j == 12 { -1i8 } else if j == 13 { -1i8 } else { -1i8 } }
    else if c == 9 { if j == 0 { 1i8 } else if j == 1 { 8i8 } else if j == 2 { 0i8 } else if j == 3 { 2i8 } else if j == 4 { 3i8 } else if j == 5 { 4i8 } else if j == 6 { 2i8 } else if j == 7 { 4i8 } else if j == 8 { 6i8 } else if j == 9 { 4i8 } else if j == 10 { 3i8 } else if j == 11 { 11i8 } else if j == 12 { -1i8 } else if j == 13 { -1i8 } else { -1i8 } }
    else if c == 10 { if j == 0 { 2i8 } else if j == 1 { 0i8 } else if j == 2 { 6i8 } else if j == 3 { 6i8 } else if j == 4 { 0i8 } else if j == 5 { 4i8 } else if j == 6 { -1i8 } else if j == 7 { -1i8 } else if j == 8 { -1i8 } else if j == 9 { -1i8 } else if j == 10 { -1i8 } else if j == 11 { -1i8 } else if j == 12 { -1i8 } else if j == 13 { -1i8 } else { -1i8 } }
    else if c == 11 { if j == 0 { 1i8 } else if j == 1 { 8i8 } else if j == 2 { 4i8 } else if j == 3 { 1i8 } else if j == 4 { 4i8 } else if j == 5 { 2i8 } else if j == 6 { 2i8 } else if j == 7 { 4i8 } else if j == 8 { 6i8 } else if j == 9 { -1i8 } else if j == 10 { -1i8 } else if j == 11 { -1i8 } else if j == 12 { -1i8 } else if j == 13 { -1i8 } else { -1i8 } }
    else if c == 12 { if j == 0 { 3i8 } else if j == 1 { 11i8 } else if j == 2 { 8i8 } else if j == 3 { 3i8 } else if j == 4 { 8i8 } else if j == 5 { 6i8 } else if j == 6 { 3i8 } else if j == 7 { 6i8 } else if j == 8 { 2i8 } else if j == 9 { 5i8 } else if j == 10 { 6i8 } else if j == 11 { 8i8 } else if j == 12 { -1i8 } else if j == 13 { -1i8 } else { -1i8 } }
    else if c == 13 { if j == 0 { 1i8 } else if j == 1 { 5i8 } else if j == 2 { 11i8 } else if j == 3 { 1i8 } else if j == 4 { 11i8 } else if j == 5 { 0i8 } else if j == 6 { 5i8 } else if j == 7 { 6i8 } else if j == 8 { 11i8 } else if j == 9 { 3i8 } else if j == 10 { 11i8 } else if j == 11 { 2i8 } else if j == 12 { 6i8 } else if j == 13 { 2i8 } else { 11i8 } }
    else if c == 14 { if j == 0 { 8i8 } else if j == 1 { 5i8 } else if j == 2 { 6i8 } else if j == 3 { 8i8 } else if j == 4 { 6i8 } else if j == 5 { 0i8 } else if j == 6 { 0i8 } else if j == 7 { 6i8 } else if j == 8 { 2i8 } else if j == 9 { -1i8 } else if j == 10 { -1i8 } else if j == 11 { -1i8 } else if j == 12 { -1i8 } else if j == 13 { -1i8 } else { -1i8 } }
    else { if j == 0 { 6i8 } else if j == 1 { 2i8 } else if j == 2 { 1i8 } else if j == 3 { 5i8 } else if j == 4 { 6i8 } else if j == 5 { 1i8 } else if j == 6 { -1i8 } else if j == 7 { -1i8 } else if j == 8 { -1i8 } else if j == 9 { -1i8 } else if j == 10 { -1i8 } else if j == 11 { -1i8 } else if j == 12 { -1i8 } else if j == 13 { -1i8 } else { -1i8 } }
}

pub open spec fn classic_tri_11(c: int, j: int) -> i8 {
    if c == 0 { if j == 0 { 9i8 } else if j == 1 { 7i8 } else if j == 2 { 6i8 } else if j == 3 { 9i8 } else if j == 4 { 1i8 } else if j == 5 { 7i8 } else if j == 6 { 1i8 } else if j == 7 { 3i8 } else if j == 8 { 7i8 } else if j == 9 { -1i8 } else if j == 10 { -1i8 } else if j == 11 { -1i8 } else if j == 12 { -1i8 } else if j == 13 { -1i8 } else { -1i8 } }
    else if c == 1 { if j == 0 { 0i8 } else if j == 1 { 3i8 } else if j == 2 { 7i8 } else if j == 3 { 0i8 } else if j == 4 { 7i8 } else if j == 5 { 9i8 } else if j == 6 { 0i8 } else if j == 7 { 9i8 } else if j == 8 { 8i8 } else if j == 9 { 6i8 } else if j == 10 { 9i8 } else if j == 11 { 7i8 } else if j == 12 { -1i8 } else if j == 13 { -1i8 } else { -1i8 } }
    else if c == 2 { if j == 0 { 0i8 } else if j == 1 { 11i8 } else if j == 2 { 7i8 } else if j == 3 { 1i8 } else if j == 4 { 0i8 } else if j == 5 { 7i8 } else if j == 6 { 1i8 } else if j == 7 { 7i8 } else if j == 8 { 6i8 } else if j == 9 { 1i8 } else if j == 10 { 6i8 } else if j == 11 { 9i8 } else if j == 12 { -1i8 } else if j == 13 { -1i8 } else { -1i8 } }
    else if c == 3 { if j == 0 { 7i8 } else if j == 1 { 6i8 } else if j == 2 { 9i8 } else if j == 3 { 7i8 } else if j == 4 { 9i8 } else if j == 5 { 11i8 } else if j == 6 { 11i8 } else if j == 7 { 9i8 } else if j == 8 { 8i8 } else if j == 9 { -1i8 } else if j == 10 { -1i8 } else if j == 11 { -1i8 } else if j == 12 { -1i8 } else if j == 13 { -1i8 } else { -1i8 } }
    else if c == 4 { if j == 0 { 8i8 } else if j == 1 { 5i8 } else if j == 2 { 4i8 } else if j == 3 { 9i8 } else if j == 4 { 1i8 } else if j == 5 { 6i8 } else if j == 6 { 1i8 } else if j == 7 { 7i8 } else if j == 8 { 6i8 } else if j == 9 { 1i8 } else if j == 10 { 3i8 } else if j == 11 { 7i8 } else if j == 12 { -1i8 } else if j == 13 { -1i8 } else { -1i8 } }
    else if c == 5 { if j == 0 { 4i8 } else if j == 1 { 0i8 } else if j == 2 { 9i8 } else if j == 3 { 4i8 } else if j == 4 { 9i8 } else if j == 5 { 5i8 } else if j == 6 { 0i8 } else if j == 7 { 3i8 } else if j == 8 { 9i8 } else if j == 9 { 6i8 } else if j == 10 { 9i8 } else if j == 11 { 7i8 } else if j == 12 { 3i8 } else if j == 13 { 7i8 } else { 9i8 } }
    else if c == 6 { if j == 0 { 1i8 } else if j == 1 { 6i8 } else if j == 2 { 9i8 } else if j == 3 { 1i8 } else if j == 4 { 7i8 } else if j == 5 { 6i8 } else if j == 6 { 1i8 } else if j == 7 { 0i8 } else if j == 8 { 7i8 } else if j == 9 { 11i8 } else if j == 10 { 7i8 } else if j == 11 { 0i8 } else if j == 12 { 8i8 } else if j == 13 { 5i8 } else { 4i8 } }
    else if c == 7 { if j == 0 { 5i8 } else if j == 1 { 4i8 } else if j == 2 { 11i8 } else if j == 3 { 5i8 } else if j == 4 { 11i8 } else if j == 5 { 9i8 } else if j == 6 { 7i8 } else if j == 7 { 6i8 } else if j == 8 { 11i8 } else if j == 9 { 6i8 } else if j == 10 { 9i8 } else if j == 11 { 11i8 } else if j == 12 { -1i8 } else if j == 13 { -1i8 } else { -1i8 } }
    else if c == 8 { if j == 0 { 9i8 } else if j == 1 { 1i8 } else if j == 2 { 3i8 } else if j == 3 { 9i8 } else if j == 4 { 3i8 } else if j == 5 { 4i8 } else if j == 6 { 9i8 } else if j == 7 { 4i8 } else if j == 8 { 6i8 } else if j == 9 { 4i8 } else if j == 10 { 3i8 } else if j == 11 { 11i8 } else if j == 12 { -1i8 } else if j == 13 { -1i8 } else { -1i8 } }
    else if c == 9 { if j == 0 { 4i8 } else if j == 1 { 6i8 } else if j == 2 { 3i8 } else if j == 3 { 4i8 } else if j == 4 { 3i8 } else if j == 5 { 11i8 } else if j == 6 { 6i8 } else if j == 7 { 9i8 } else if j == 8 { 3i8 } else if j == 9 { 0i8 } else if j == 10 { 3i8 } else if j == 11 { 8i8 } else if j == 12 { 9i8 } else if j == 13 { 8i8 } else { 3i8 } }
    else if c == 10 { if j == 0 { 9i8 } else if j == 1 { 1i8 } else if j == 2 { 0i8 } else if j == 3 { 9i8 } else if j == 4 { 0i8 } else if j == 5 { 6i8 } else if j == 6 { 6i8 } else if j == 7 { 0i8 } else if j == 8 { 4i8 } else if j == 9 { -1i8 } else if j == 10 { -1i8 } else if j == 11 { -1i8 } else if j == 12 { -1i8 } else if j == 13 { -1i8 } else { -1i8 } }
    else if c == 11 { if j == 0 { 4i8 } else if j == 1 { 6i8 } else if j == 2 { 9i8 } else if j == 3 { 8i8 } else if j == 4 { 4i8 } else if j == 5 { 9i8 } else if j == 6 { -1i8 } else if j == 7 { -1i8 } else if j == 8 { -1i8 } else if j == 9 { -1i8 } else if j == 10 { -1i8 } else if j == 11 { -1i8 } else if j == 12 { -1i8 } else if j == 13 { -1i8 } else { -1i8 } }
    else if c == 12 { if j == 0 { 1i8 } else if j == 1 { 3i8 } else if j == 2 { 6i8 } else if j == 3 { 1i8 } else if j == 4 { 6i8 } else if j == 5 { 9i8 } else if j == 6 { 3i8 } else if j == 7 { 11i8 } else if j == 8 { 6i8 } else if j == 9 { 5i8 } else if j == 10 { 6i8 } else if j == 11 { 8i8 } else if j == 12 { 11i8 } else if j == 13 { 8i8 } else { 6i8 } }
    else if c == 13 { if j == 0 { 3i8 } else if j == 1 { 11i8 } else if j == 2 { 0i8 } else if j == 3 { 9i8 } else if j == 4 { 5i8 } else if j == 5 { 6i8 } else if j == 6 { -1i8 } else if j == 7 { -1i8 } else if j == 8 { -1i8 } else if j == 9 { -1i8 } else if j == 10 { -1i8 } else if j == 11 { -1i8 } else if j == 12 { -1i8 } else if j == 13 { -1i8 } else { -1i8 } }
    else if c == 14 { if j == 0 { 8i8 } else if j == 1 { 5i8 } else if j == 2 { 6i8 } else if j == 3 { 8i8 } else if j == 4 { 6i8 } else if j == 5 { 0i8 } else if j == 6 { 9i8 } else if j == 7 { 1i8 } else if j == 8 { 6i8 } else if j == 9 { 1i8 } else if j == 10 { 0i8 } else if j == 11 { 6i8 } else if j == 12 { -1i8 } else if j == 13 { -1i8 } else { -1i8 } }
    else { if j == 0 { 6i8 } else if j == 1 { 9i8 } else if j == 2 { 5i8 } else if j == 3 { -1i8 } else if j == 4 { -1i8 } else if j == 5 { -1i8 } else if j == 6 { -1i8 } else if j == 7 { -1i8 } else if j == 8 { -1i8 } else if j == 9 { -1i8 } else if j == 10 { -1i8 } else if j == 11 { -1i8 } else if j == 12 { -1i8 } else if j == 13 { -1i8 } else { -1i8 } }
}

pub open spec fn classic_tri_12(c: int, j: int) -> i8 {
    if c == 0 { if j == 0 { 10i8 } else if j == 1 { 5i8 } else if j == 2 { 9i8 } else if j == 3 { 7i8 } else if j == 4 { 5i8 } else if j == 5 { 10i8 } else if j == 6 { -1i8 } else if j == 7 { -1i8 } else if j == 8 { -1i8 } else if j == 9 { -1i8 } else if j == 10 { -1i8 } else if j == 11 { -1i8 } else if j == 12 { -1i8 } else if j == 13 { -1i8 } else { -1i8 } }
    else if c == 1 { if j == 0 { 5i8 } else if j == 1 { 10i8 } else if j == 2 { 7i8 } else if j == 3 { 5i8 } else if j == 4 { 9i8 } else if j == 5 { 10i8 } else if j == 6 { 1i8 } else if j == 7 { 8i8 } else if j == 8 { 0i8 } else if j == 9 { -1i8 } else if j == 10 { -1i8 } else if j == 11 { -1i8 } else if j == 12 { -1i8 } else if j == 13 { -1i8 } else { -1i8 } }
    else if c == 2 { if j == 0 { 10i8 } else if j == 1 { 5i8 } else if j == 2 { 9i8 } else if j == 3 { 10i8 } else if j == 4 { 7i8 } else if j == 5 { 5i8 } else if j == 6 { 11i8 } else if j == 7 { 3i8 } else if j == 8 { 0i8 } else if j == 9 { -1i8 } else if j == 10 { -1i8 } else if j == 11 { -1i8 } else if j == 12 { -1i8 } else if j == 13 { -1i8 } else { -1i8 } }
    else if c == 3 { if j == 0 { 10i8 } else if j == 1 { 7i8 } else if j == 2 { 9i8 } else if j == 3 { 9i8 } else if j == 4 { 7i8 } else if j == 5 { 5i8 } else if j == 6 { 11i8 } else if j == 7 { 3i8 } else if j == 8 { 1i8 } else if j == 9 { 11i8 } else if j == 10 { 1i8 } else if j == 11 { 8i8 } else if j == 12 { -1i8 } else if j == 13 { -1i8 } else { -1i8 } }
    else if c == 4 { if j == 0 { 4i8 } else if j == 1 { 10i8 } else if j == 2 { 7i8 } else if j == 3 { 4i8 } else if j == 4 { 8i8 } else if j == 5 { 10i8 } else if j == 6 { 8i8 } else if j == 7 { 9i8 } else if j == 8 { 10i8 } else if j == 9 { -1i8 } else if j == 10 { -1i8 } else if j == 11 { -1i8 } else if j == 12 { -1i8 } else if j == 13 { -1i8 } else { -1i8 } }
    else if c == 5 { if j == 0 { 7i8 } else if j == 1 { 9i8 } else if j == 2 { 10i8 } else if j == 3 { 7i8 } else if j == 4 { 0i8 } else if j == 5 { 9i8 } else if j == 6 { 7i8 } else if j == 7 { 4i8 } else if j == 8 { 0i8 } else if j == 9 { 1i8 } else if j == 10 { 9i8 } else if j == 11 { 0i8 } else if j == 12 { -1i8 } else if j == 13 { -1i8 } else { -1i8 } }
    else if c == 6 { if j == 0 { 3i8 } else if j == 1 { 0i8 } else if j == 2 { 11i8 } else if j == 3 { 10i8 } else if j == 4 { 7i8 } else if j == 5 { 8i8 } else if j == 6 { 10i8 } else if j == 7 { 8i8 } else if j == 8 { 9i8 } else if j == 9 { 8i8 } else if j == 10 { 7i8 } else if j == 11 { 4i8 } else if j == 12 { -1i8 } else if j == 13 { -1i8 } else { -1i8 } }
    else if c == 7 { if j == 0 { 3i8 } else if j == 1 { 1i8 } else if j == 2 { 4i8 } else if j == 3 { 3i8 } else if j == 4 { 4i8 } else if j == 5 { 11i8 } else if j == 6 { 1i8 } else if j == 7 { 9i8 } else if j == 8 { 4i8 } else if j == 9 { 7i8 } else if j == 10 { 4i8 } else if j == 11 { 10i8 } else if j == 12 { 9i8 } else if j == 13 { 10i8 } else { 4i8 } }
    else if c == 8 { if j == 0 { 5i8 } else if j == 1 { 11i8 } else if j == 2 { 4i8 } else if j == 3 { 5i8 } else if j == 4 { 9i8 } else if j == 5 { 11i8 } else if j == 6 { 9i8 } else if j == 7 { 10i8 } else if j == 8 { 11i8 } else if j == 9 { -1i8 } else if j == 10 { -1i8 } else if j == 11 { -1i8 } else if j == 12 { -1i8 } else if j == 13 { -1i8 } else { -1i8 } }
    else if c == 9 { if j == 0 { 0i8 } else if j == 1 { 1i8 } else if j == 2 { 8i8 } else if j == 3 { 11i8 } else if j == 4 { 4i8 } else if j == 5 { 9i8 } else if j == 6 { 11i8 } else if j == 7 { 9i8 } else if j == 8 { 10i8 } else if j == 9 { 9i8 } else if j == 10 { 4i8 } else if j == 11 { 5i8 } else if j == 12 { -1i8 } else if j == 13 { -1i8 } else { -1i8 } }
    else if c == 10 { if j == 0 { 3i8 } else if j == 1 { 0i8 } else if j == 2 { 4i8 } else if j == 3 { 3i8 } else if j == 4 { 4i8 } else if j == 5 { 9i8 } else if j == 6 { 3i8 } else if j == 7 { 9i8 } else if j == 8 { 10i8 } else if j == 9 { 9i8 } else if j == 10 { 4i8 } else if j == 11 { 5i8 } else if j == 12 { -1i8 } else if j == 13 { -1i8 } else { -1i8 } }
    else if c == 11 { if j == 0 { 9i8 } else if j == 1 { 10i8 } else if j == 2 { 4i8 } else if j == 3 { 9i8 } else if j == 4 { 4i8 } else if j == 5 { 5i8 } else if j == 6 { 10i8 } else if j == 7 { 3i8 } else if j == 8 { 4i8 } else if j == 9 { 8i8 } else if j == 10 { 4i8 } else if j == 11 { 1i8 } else if j == 12 { 3i8 } else if j == 13 { 1i8 } else { 4i8 } }
    else if c == 12 { if j == 0 { 10i8 } else if j == 1 { 11i8 } else if j == 2 { 9i8 } else if j == 3 { 11i8 } else if j == 4 { 8i8 } else if j == 5 { 9i8 } else if j == 6 { -1i8 } else if j == 7 { -1i8 } else if j == 8 { -1i8 } else if j == 9 { -1i8 } else if j == 10 { -1i8 } else if j == 11 { -1i8 } else if j == 12 { -1i8 } else if j == 13 { -1i8 } else { -1i8 } }
    else if c == 13 { if j == 0 { 0i8 } else if j == 1 { 1i8 } else if j == 2 { 9i8 } else if j == 3 { 0i8 } else if j == 4 { 9i8 } else if j == 5 { 11i8 } else if j == 6 { 11i8 } else if j == 7 { 9i8 } else if j == 8 { 10i8 } else if j == 9 { -1i8 } else if j == 10 { -1i8 } else if j == 11 { -1i8 } else if j == 12 { -1i8 } else if j == 13 { -1i8 } else { -1i8 } }
    else if c == 14 { if j == 0 { 3i8 } else if j == 1 { 0i8 } else if j == 2 { 8i8 } else if j == 3 { 3i8 } else if j == 4 { 8i8 } else if j == 5 { 10i8 } else if j == 6 { 10i8 } else if j == 7 { 8i8 } else if j == 8 { 9i8 } else if j == 9 { -1i8 } else if j == 10 { -1i8 } else if j == 11 { -1i8 } else if j == 12 { -1i8 } else if j == 13 { -1i8 } else { -1i8 } }
    else { if j == 0 { 3i8 } else if j == 1 { 1i8 } else if j == 2 { 9i8 } else if j == 3 { 10i8 } else if j == 4 { 3i8 } else if j == 5 { 9i8 } else if j == 6 { -1i8 } else if j == 7 { -1i8 } else if j == 8 { -1i8 } else if j == 9 { -1i8 } else if j == 10 { -1i8 } else if j == 11 { -1i8 } else if j == 12 { -1i8 } else if j == 13 { -1i8 } else { -1i8 } }
}

pub open spec fn classic_tri_13(c: int, j: int) -> i8 {
    if c == 0 { if j == 0 { 10i8 } else if j == 1 { 1i8 } else if j == 2 { 2i8 } else if j == 3 { 10i8 } else if j == 4 { 7i8 } else if j == 5 { 1i8 } else if j == 6 { 7i8 } else if j == 7 { 5i8 } else if j == 8 { 1i8 } else if j == 9 { -1i8 } else if j == 10 { -1i8 } else if j == 11 { -1i8 } else if j == 12 { -1i8 } else if j == 13 { -1i8 } else { -1i8 } }
    else if c == 1 { if j == 0 { 10i8 } else if j == 1 { 7i8 } else if j == 2 { 5i8 } else if j == 3 { 10i8 } else if j == 4 { 5i8 } else if j == 5 { 0i8 } else if j == 6 { 10i8 } else if j == 7 { 0i8 } else if j == 8 { 2i8 } else if j == 9 { 0i8 } else if j == 10 { 5i8 } else if j == 11 { 8i8 } else if j == 12 { -1i8 } else if j == 13 { -1i8 } else { -1i8 } }
    else if c == 2 { if j == 0 { 11i8 } else if j == 1 { 3i8 } else if j == 2 { 0i8 } else if j == 3 { 10i8 } else if j == 4 { 7i8 } else if j == 5 { 2i8 } else if j == 6 { 7i8 } else if j == 7 { 1i8 } else if j == 8 { 2i8 } else if j == 9 { 7i8 } else if j == 10 { 5i8 } else if j == 11 { 1i8 } else if j == 12 { -1i8 } else if j == 13 { -1i8 } else { -1i8 } }
    else if c == 3 { if j == 0 { 7i8 } else if j == 1 { 5i8 } else if j == 2 { 2i8 } else if j == 3 { 7i8 } else if j == 4 { 2i8 } else if j == 5 { 10i8 } else if j == 6 { 5i8 } else if j == 7 { 8i8 } else if j == 8 { 2i8 } else if j == 9 { 3i8 } else if j == 10 { 2i8 } else if j == 11 { 11i8 } else if j == 12 { 8i8 } else if j == 13 { 11i8 } else { 2i8 } }
    else if c == 4 { if j == 0 { 1i8 } else if j == 1 { 4i8 } else if j == 2 { 8i8 } else if j == 3 { 2i8 } else if j == 4 { 4i8 } else if j == 5 { 1i8 } else if j == 6 { 2i8 } else if j == 7 { 7i8 } else if j == 8 { 4i8 } else if j == 9 { 2i8 } else if j == 10 { 10i8 } else if j == 11 { 7i8 } else if j == 12 { -1i8 } else if j == 13 { -1i8 } else { -1i8 } }
    else if c == 5 { if j == 0 { 10i8 } else if j == 1 { 7i8 } else if j == 2 { 4i8 } else if j == 3 { 10i8 } else if j == 4 { 4i8 } else if j == 5 { 2i8 } else if j == 6 { 2i8 } else if j == 7 { 4i8 } else if j == 8 { 0i8 } else if j == 9 { -1i8 } else if j == 10 { -1i8 } else if j == 11 { -1i8 } else if j == 12 { -1i8 } else if j == 13 { -1i8 } else { -1i8 } }
    else if c == 6 { if j == 0 { 2i8 } else if j == 1 { 8i8 } else if j == 2 { 1i8 } else if j == 3 { 2i8 } else if j == 4 { 4i8 } else if j == 5 { 8i8 } else if j == 6 { 2i8 } else if j == 7 { 10i8 } else if j == 8 { 4i8 } else if j == 9 { 7i8 } else if j == 10 { 4i8 } else if j == 11 { 10i8 } else if j == 12 { 3i8 } else if j == 13 { 0i8 } else { 11i8 } }
    else if c == 7 { if j == 0 { 11i8 } else if j == 1 { 3i8 } else if j == 2 { 2i8 } else if j == 3 { 11i8 } else if j == 4 { 2i8 } else if j == 5 { 4i8 } else if j == 6 { 10i8 } else if j == 7 { 7i8 } else if j == 8 { 2i8 } else if j == 9 { 7i8 } else if j == 10 { 4i8 } else if j == 11 { 2i8 } else if j == 12 { -1i8 } else if j == 13 { -1i8 } else { -1i8 } }
    else if c == 8 { if j == 0 { 2i8 } else if j == 1 { 5i8 } else if j == 2 { 1i8 } else if j == 3 { 2i8 } else if j == 4 { 11i8 } else if j == 5 { 5i8 } else if j == 6 { 2i8 } else if j == 7 { 10i8 } else if j == 8 { 11i8 } else if j == 9 { 4i8 } else if j == 10 { 5i8 } else if j == 11 { 11i8 } else if j == 12 { -1i8 } else if j == 13 { -1i8 } else { -1i8 } }
    else if c == 9 { if j == 0 { 0i8 } else if j == 1 { 2i8 } else if j == 2 { 5i8 } else if j == 3 { 0i8 } else if j == 4 { 5i8 } else if j == 5 { 8i8 } else if j == 6 { 2i8 } else if j == 7 { 10i8 } else if j == 8 { 5i8 } else if j == 9 { 4i8 } else if j == 10 { 5i8 } else if j == 11 { 11i8 } else if j == 12 { 10i8 } else if j == 13 { 11i8 } else { 5i8 } }
    else if c == 10 { if j == 0 { 0i8 } else if j == 1 { 4i8 } else if j == 2 { 10i8 } else if j == 3 { 0i8 } else if j == 4 { 10i8 } else if j == 5 { 3i8 } else if j == 6 { 4i8 } else if j == 7 { 5i8 } else if j == 8 { 10i8 } else if j == 9 { 2i8 } else if j == 10 { 10i8 } else if j == 11 { 1i8 } else if j == 12 { 5i8 } else if j == 13 { 1i8 } else { 10i8 } }
    else if c == 11 { if j == 0 { 2i8 } else if j == 1 { 10i8 } else if j == 2 { 3i8 } else if j == 3 { 8i8 } else if j == 4 { 4i8 } else if j == 5 { 5i8 } else if j == 6 { -1i8 } else if j == 7 { -1i8 } else if j == 8 { -1i8 } else if j == 9 { -1i8 } else if j == 10 { -1i8 } else if j == 11 { -1i8 } else if j == 12 { -1i8 } else if j == 13 { -1i8 } else { -1i8 } }
    else if c == 12 { if j == 0 { 1i8 } else if j == 1 { 2i8 } else if j == 2 { 10i8 } else if j == 3 { 1i8 } else if j == 4 { 10i8 } else if j == 5 { 8i8 } else if j == 6 { 8i8 } else if j == 7 { 10i8 } else if j == 8 { 11i8 } else if j == 9 { -1i8 } else if j == 10 { -1i8 } else if j == 11 { -1i8 } else if j == 12 { -1i8 } else if j == 13 { -1i8 } else { -1i8 } }
    else if c == 13 { if j == 0 { 10i8 } else if j == 1 { 11i8 } else if j == 2 { 0i8 } else if j == 3 { 2i8 } else if j == 4 { 10i8 } else if j == 5 { 0i8 } else if j == 6 { -1i8 } else if j == 7 { -1i8 } else if j == 8 { -1i8 } else if j == 9 { -1i8 } else if j == 10 { -1i8 } else if j == 11 { -1i8 } else if j == 12 { -1i8 } else if j == 13 { -1i8 } else { -1i8 } }
    else if c == 14 { if j == 0 { 1i8 } else if j == 1 { 2i8 } else if j == 2 { 10i8 } else if j == 3 { 1i8 } else if j == 4 { 10i8 } else if j == 5 { 8i8 } else if j == 6 { 3i8 } else if j == 7 { 0i8 } else if j == 8 { 10i8 } else if j == 9 { 0i8 } else if j == 10 { 8i8 } else if j == 11 { 10i8 } else if j == 12 { -1i8 } else if j == 13 { -1i8 } else { -1i8 } }
    else { if j == 0 { 2i8 } else if j == 1 { 10i8 } else if j == 2 { 3i8 } else if j == 3 { -1i8 } else if j == 4 { -1i8 } else if j == 5 { -1i8 } else if j == 6 { -1i8 } else if j == 7 { -1i8 } else if j == 8 { -1i8 } else if j == 9 { -1i8 } else if j == 10 { -1i8 } else if j == 11 { -1i8 } else if j == 12 { -1i8 } else if j == 13 { -1i8 } else { -1i8 } }
}

pub open spec fn classic_tri_14(c: int, j: int) -> i8 {
    if c == 0 { if j == 0 { 2i8 } else if j == 1 { 5i8 } else if j == 2 { 9i8 } else if j == 3 { 2i8 } else if j == 4 { 3i8 } else if j == 5 { 5i8 } else if j == 6 { 3i8 } else if j == 7 { 7i8 } else if j == 8 { 5i8 } else if j == 9 { -1i8 } else if j == 10 { -1i8 } else if j == 11 { -1i8 } else if j == 12 { -1i8 } else if j == 13 { -1i8 } else { -1i8 } }
    else if c == 1 { if j == 0 { 0i8 } else if j == 1 { 1i8 } else if j == 2 { 8i8 } else if j == 3 { 2i8 } else if j == 4 { 3i8 } else if j == 5 { 9i8 } else if j == 6 { 3i8 } else if j == 7 { 5i8 } else if j == 8 { 9i8 } else if j == 9 { 3i8 } else if j == 10 { 7i8 } else if j == 11 { 5i8 } else if j == 12 { -1i8 } else if j == 13 { -1i8 } else { -1i8 } }
    else if c == 2 { if j == 0 { 9i8 } else if j == 1 { 2i8 } else if j == 2 { 0i8 } else if j == 3 { 9i8 } else if j == 4 { 0i8 } else if j == 5 { 7i8 } else if j == 6 { 9i8 } else if j == 7 { 7i8 } else if j == 8 { 5i8 } else if j == 9 { 11i8 } else if j == 10 { 7i8 } else if j == 11 { 0i8 } else if j == 12 { -1i8 } else if j == 13 { -1i8 } else { -1i8 } }
    else if c == 3 { if j == 0 { 8i8 } else if j == 1 { 11i8 } else if j == 2 { 2i8 } else if j == 3 { 8i8 } else if j == 4 { 2i8 } else if j == 5 { 1i8 } else if j == 6 { 11i8 } else if j == 7 { 7i8 } else if j == 8 { 2i8 } else if j == 9 { 9i8 } else if j == 10 { 2i8 } else if j == 11 { 5i8 } else if j == 12 { 7i8 } else if j == 13 { 5i8 } else { 2i8 } }
    else if c == 4 { if j == 0 { 2i8 } else if j == 1 { 8i8 } else if j == 2 { 9i8 } else if j == 3 { 2i8 } else if j == 4 { 7i8 } else if j == 5 { 8i8 } else if j == 6 { 2i8 } else if j == 7 { 3i8 } else if j == 8 { 7i8 } else if j == 9 { 7i8 } else if j == 10 { 4i8 } else if j == 11 { 8i8 } else if j == 12 { -1i8 } else if j == 13 { -1i8 } else { -1i8 } }
    else if c == 5 { if j == 0 { 3i8 } else if j == 1 { 7i8 } else if j == 2 { 9i8 } else if j == 3 { 3i8 } else if j == 4 { 9i8 } else if j == 5 { 2i8 } else if j == 6 { 7i8 } else if j == 7 { 4i8 } else if j == 8 { 9i8 } else if j == 9 { 1i8 } else if j == 10 { 9i8 } else if j == 11 { 0i8 } else if j == 12 { 4i8 } else if j == 13 { 0i8 } else { 9i8 } }
    else if c == 6 { if j == 0 { 8i8 } else if j == 1 { 9i8 } else if j == 2 { 7i8 } else if j == 3 { 8i8 } else if j == 4 { 7i8 } else if j == 5 { 4i8 } else if j == 6 { 9i8 } else if j == 7 { 2i8 } else if j == 8 { 7i8 } else if j == 9 { 11i8 } else if j == 10 { 7i8 } else if j == 11 { 0i8 } else if j == 12 { 2i8 } else if j == 13 { 0i8 } else { 7i8 } }
    else if c == 7 { if j == 0 { 2i8 } else if j == 1 { 1i8 } else if j == 2 { 9i8 } else if j == 3 { 7i8 } else if j == 4 { 4i8 } else if j == 5 { 11i8 } else if j == 6 { -1i8 } else if j == 7 { -1i8 } else if j == 8 { -1i8 } else if j == 9 { -1i8 } else if j == 10 { -1i8 } else if j == 11 { -1i8 } else if j == 12 { -1i8 } else if j == 13 { -1i8 } else { -1i8 } }
    else if c == 8 { if j == 0 { 11i8 } else if j == 1 { 4i8 } else if j == 2 { 5i8 } else if j == 3 { 3i8 } else if j == 4 { 11i8 } else if j == 5 { 5i8 } else if j == 6 { 3i8 } else if j == 7 { 5i8 } else if j == 8 { 9i8 } else if j == 9 { 3i8 } else if j == 10 { 9i8 } else if j == 11 { 2i8 } else if j == 12 { -1i8 } else if j == 13 { -1i8 } else { -1i8 } }
    else if c == 9 { if j == 0 { 3i8 } else if j == 1 { 9i8 } else if j == 2 { 2i8 } else if j == 3 { 3i8 } else if j == 4 { 5i8 } else if j == 5 { 9i8 } else if j == 6 { 3i8 } else if j == 7 { 11i8 } else if j == 8 { 5i8 } else if j == 9 { 4i8 } else if j == 10 { 5i8 } else if j == 11 { 11i8 } else if j == 12 { 0i8 } else if j == 13 { 1i8 } else { 8i8 } }
    else if c == 10 { if j == 0 { 5i8 } else if j == 1 { 9i8 } else if j == 2 { 2i8 } else if j == 3 { 5i8 } else if j == 4 { 2i8 } else if j == 5 { 4i8 } else if j == 6 { 4i8 } else if j == 7 { 2i8 } else if j == 8 { 0i8 } else if j == 9 { -1i8 } else if j == 10 { -1i8 } else if j == 11 { -1i8 } else if j == 12 { -1i8 } else if j == 13 { -1i8 } else { -1i8 } }
    else if c == 11 { if j == 0 { 5i8 } else if j == 1 { 9i8 } else if j == 2 { 2i8 } else if j == 3 { 5i8 } else if j == 4 { 2i8 } else if j == 5 { 4i8 } else if j == 6 { 1i8 } else if j == 7 { 8i8 } else if j == 8 { 2i8 } else if j == 9 { 8i8 } else if j == 10 { 4i8 } else if j == 11 { 2i8 } else if j == 12 { -1i8 } else if j == 13 { -1i8 } else { -1i8 } }
    else if c == 12 { if j == 0 { 2i8 } else if j == 1 { 3i8 } else if j == 2 { 11i8 } else if j == 3 { 2i8 } else if j == 4 { 11i8 } else if j == 5 { 9i8 } else if j == 6 { 9i8 } else if j == 7 { 11i8 } else if j == 8 { 8i8 } else if j == 9 { -1i8 } else if j == 10 { -1i8 } else if j == 11 { -1i8 } else if j == 12 { -1i8 } else if j == 13 { -1i8 } else { -1i8 } }
    else if c == 13 { if j == 0 { 0i8 } else if j == 1 { 1i8 } else if j == 2 { 9i8 } else if j == 3 { 0i8 } else if j == 4 { 9i8 } else if j == 5 { 11i8 } else if j == 6 { 2i8 } else if j == 7 { 3i8 } else if j == 8 { 9i8 } else if j == 9 { 3i8 } else if j == 10 { 11i8 } else if j == 11 { 9i8 } else if j == 12 { -1i8 } else if j == 13 { -1i8 } else { -1i8 } }
    else if c == 14 { if j == 0 { 2i8 } else if j == 1 { 0i8 } else if j == 2 { 8i8 } else if j == 3 { 9i8 } else if j == 4 { 2i8 } else if j == 5 { 8i8 } else if j == 6 { -1i8 } else if j == 7 { -1i8 } else if j == 8 { -1i8 } else if j == 9 { -1i8 } else if j == 10 { -1i8 } else if j == 11 { -1i8 } else if j == 12 { -1i8 } else if j == 13 { -1i8 } else { -1i8 } }
    else { if j == 0 { 2i8 } else if j == 1 { 1i8 } else if j == 2 { 9i8 } else if j == 3 { -1i8 } else if j == 4 { -1i8 } else if j == 5 { -1i8 } else if j == 6 { -1i8 } else if j == 7 { -1i8 } else if j == 8 { -1i8 } else if j == 9 { -1i8 } else if j == 10 { -1i8 } else if j == 11 { -1i8 } else if j == 12 { -1i8 } else if j == 13 { -1i8 } else { -1i8 } }
}

pub open spec fn classic_tri_15(c: int, j: int) -> i8 {
    if c == 0 { if j == 0 { 3i8 } else if j == 1 { 7i8 } else if j == 2 { 1i8 } else if j == 3 { 1i8 } else if j == 4 { 7i8 } else if j == 5 { 5i8 } else if j == 6 { -1i8 } else if j == 7 { -1i8 } else if j == 8 { -1i8 } else if j == 9 { -1i8 } else if j == 10 { -1i8 } else if j == 11 { -1i8 } else if j == 12 { -1i8 } else if j == 13 { -1i8 } else { -1i8 } }
    else if c == 1 { if j == 0 { 8i8 } else if j == 1 { 0i8 } else if j == 2 { 3i8 } else if j == 3 { 8i8 } else if j == 4 { 3i8 } else if j == 5 { 5i8 } else if j == 6 { 5i8 } else if j == 7 { 3i8 } else if j == 8 { 7i8 } else if j == 9 { -1i8 } else if j == 10 { -1i8 } else if j == 11 { -1i8 } else if j == 12 { -1i8 } else if j == 13 { -1i8 } else { -1i8 } }
    else if c == 2 { if j == 0 { 0i8 } else if j == 1 { 11i8 } else if j == 2 { 7i8 } else if j == 3 { 0i8 } else if j == 4 { 7i8 } else if j == 5 { 1i8 } else if j == 6 { 1i8 } else if j == 7 { 7i8 } else if j == 8 { 5i8 } else if j == 9 { -1i8 } else if j == 10 { -1i8 } else if j == 11 { -1i8 } else if j == 12 { -1i8 } else if j == 13 { -1i8 } else { -1i8 } }
    else if c == 3 { if j == 0 { 8i8 } else if j == 1 { 11i8 } else if j == 2 { 7i8 } else if j == 3 { 5i8 } else if j == 4 { 8i8 } else if j == 5 { 7i8 } else if j == 6 { -1i8 } else if j == 7 { -1i8 } else if j == 8 { -1i8 } else if j == 9 { -1i8 } else if j == 10 { -1i8 } else if j == 11 { -1i8 } else if j == 12 { -1i8 } else if j == 13 { -1i8 } else { -1i8 } }
    else if c == 4 { if j == 0 { 4i8 } else if j == 1 { 8i8 } else if j == 2 { 1i8 } else if j == 3 { 4i8 } else if j == 4 { 1i8 } else if j == 5 { 7i8 } else if j == 6 { 7i8 } else if j == 7 { 1i8 } else if j == 8 { 3i8 } else if j == 9 { -1i8 } else if j == 10 { -1i8 } else if j == 11 { -1i8 } else if j == 12 { -1i8 } else if j == 13 { -1i8 } else { -1i8 } }
    else if c == 5 { if j == 0 { 3i8 } else if j == 1 { 7i8 } else if j == 2 { 4i8 } else if j == 3 { 0i8 } else if j == 4 { 3i8 } else if j == 5 { 4i8 } else if j == 6 { -1i8 } else if j == 7 { -1i8 } else if j == 8 { -1i8 } else if j == 9 { -1i8 } else if j == 10 { -1i8 } else if j == 11 { -1i8 } else if j == 12 { -1i8 } else if j == 13 { -1i8 } else { -1i8 } }
    else if c == 6 { if j == 0 { 4i8 } else if j == 1 { 8i8 } else if j == 2 { 1i8 } else if j == 3 { 4i8 } else if j == 4 { 1i8 } else if j == 5 { 7i8 } else if j == 6 { 0i8 } else if j == 7 { 11i8 } else if j == 8 { 1i8 } else if j == 9 { 11i8 } else if j == 10 { 7i8 } else if j == 11 { 1i8 } else if j == 12 { -1i8 } else if j == 13 { -1i8 } else { -1i8 } }
    else if c == 7 { if j == 0 { 11i8 } else if j == 1 { 7i8 } else if j == 2 { 4i8 } else if j == 3 { -1i8 } else if j == 4 { -1i8 } else if j == 5 { -1i8 } else if j == 6 { -1i8 } else if j == 7 { -1i8 } else if j == 8 { -1i8 } else if j == 9 { -1i8 } else if j == 10 { -1i8 } else if j == 11 { -1i8 } else if j == 12 { -1i8 } else if j == 13 { -1i8 } else { -1i8 } }
    else if c == 8 { if j == 0 { 11i8 } else if j == 1 { 4i8 } else if j == 2 { 5i8 } else if j == 3 { 11i8 } else if j == 4 { 5i8 } else if j == 5 { 3i8 } else if j == 6 { 3i8 } else if j == 7 { 5i8 } else if j == 8 { 1i8 } else if j == 9 { -1i8 } else if j == 10 { -1i8 } else if j == 11 { -1i8 } else if j == 12 { -1i8 } else if j == 13 { -1i8 } else { -1i8 } }
    else if c == 9 { if j == 0 { 8i8 } else if j == 1 { 0i8 } else if j == 2 { 3i8 } else if j == 3 { 8i8 } else if j == 4 { 3i8 } else if j == 5 { 5i8 } else if j == 6 { 11i8 } else if j == 7 { 4i8 } else if j == 8 { 3i8 } else if j == 9 { 4i8 } else if j == 10 { 5i8 } else if j == 11 { 3i8 } else if j == 12 { -1i8 } else if j == 13 { -1i8 } else { -1i8 } }
    else if c == 10 { if j == 0 { 5i8 } else if j == 1 { 1i8 } else if j == 2 { 0i8 } else if j == 3 { 4i8 } else if j == 4 { 5i8 } else if j == 5 { 0i8 } else if j == 6 { -1i8 } else if j == 7 { -1i8 } else if j == 8 { -1i8 } else if j == 9 { -1i8 } else if j == 10 { -1i8 } else if j == 11 { -1i8 } else if j == 12 { -1i8 } else if j == 13 { -1i8 } else { -1i8 } }
    else if c == 11 { if j == 0 { 5i8 } else if j == 1 { 8i8 } else if j == 2 { 4i8 } else if j == 3 { -1i8 } else if j == 4 { -1i8 } else if j == 5 { -1i8 } else if j == 6 { -1i8 } else if j == 7 { -1i8 } else if j == 8 { -1i8 } else if j == 9 { -1i8 } else if j == 10 { -1i8 } else if j == 11 { -1i8 } else if j == 12 { -1i8 } else if j == 13 { -1i8 } else { -1i8 } }
    else if c == 12 { if j == 0 { 1i8 } else if j == 1 { 3i8 } else if j == 2 { 11i8 } else if j == 3 { 8i8 } else if j == 4 { 1i8 } else if j == 5 { 11i8 } else if j == 6 { -1i8 } else if j == 7 { -1i8 } else if j == 8 { -1i8 } else if j == 9 { -1i8 } else if j == 10 { -1i8 } else if j == 11 { -1i8 } else if j == 12 { -1i8 } else if j == 13 { -1i8 } else { -1i8 } }
    else if c == 13 { if j == 0 { 3i8 } else if j == 1 { 11i8 } else if j == 2 { 0i8 } else if j == 3 { -1i8 } else if j == 4 { -1i8 } else if j == 5 { -1i8 } else if j == 6 { -1i8 } else if j == 7 { -1i8 } else if j == 8 { -1i8 } else if j == 9 { -1i8 } else if j == 10 { -1i8 } else if j == 11 { -1i8 } else if j == 12 { -1i8 } else if j == 13 { -1i8 } else { -1i8 } }
    else if c == 14 { if j == 0 { 1i8 } else if j == 1 { 0i8 } else if j == 2 { 8i8 } else if j == 3 { -1i8 } else if j == 4 { -1i8 } else if j == 5 { -1i8 } else if j == 6 { -1i8 } else if j == 7 { -1i8 } else if j == 8 { -1i8 } else if j == 9 { -1i8 } else if j == 10 { -1i8 } else if j == 11 { -1i8 } else if j == 12 { -1i8 } else if j == 13 { -1i8 } else { -1i8 } }
    else { if j == 0 { -1i8 } else if j == 1 { -1i8 } else if j == 2 { -1i8 } else if j == 3 { -1i8 } else if j == 4 { -1i8 } else if j == 5 { -1i8 } else if j == 6 { -1i8 } else if j == 7 { -1i8 } else if j == 8 { -1i8 } else if j == 9 { -1i8 } else if j == 10 { -1i8 } else if j == 11 { -1i8 } else if j == 12 { -1i8 } else if j == 13 { -1i8 } else { -1i8 } }
}

/// Entry `(c, j)` of the classic 256x15 triangle table.
#[verifier::opaque]
pub open spec fn classic_tri(c: int, j: int) -> i8 {
    if c < 16 { classic_tri_0(c, j) }
    else if c < 32 { classic_tri_1(c - 16, j) }
    else if c < 48 { classic_tri_2(c - 32, j) }
    else if c < 64 { classic_tri_3(c - 48, j) }
    else if c < 80 { classic_tri_4(c - 64, j) }
    else if c < 96 { classic_tri_5(c - 80, j) }
    else if c < 112 { classic_tri_6(c - 96, j) }
    else if c < 128 { classic_tri_7(c - 112, j) }
    else if c < 144 { classic_tri_8(c - 128, j) }
    else if c < 160 { classic_tri_9(c - 144, j) }
    else if c < 176 { classic_tri_10(c - 160, j) }
    else if c < 192 { classic_tri_11(c - 176, j) }
    else if c < 208 { classic_tri_12(c - 192, j) }
    else if c < 224 { classic_tri_13(c - 208, j) }
    else if c < 240 { classic_tri_14(c - 224, j) }
    else { classic_tri_15(c - 240, j) }
}


/// Row `c` of the classic triangle table as a sequence.
pub open spec fn classic_row(c: int) -> Seq<i8> {
    Seq::new(15, |j: int| classic_tri(c, j))
}

/// The classic edge table as a sequence.
pub open spec fn classic_edge_seq() -> Seq<u16> {
    Seq::new(256, |c: int| classic_edge(c))
}

/// Whether triple `t` of `row` holds three edge slots flagged in `mask`.
pub open spec fn triple_ok(mask: u16, row: Seq<i8>, t: int) -> bool {
    &&& 0 <= row[3 * t] < 12 && (mask >> (row[3 * t] as u16)) & 1 == 1
    &&& 0 <= row[3 * t + 1] < 12 && (mask >> (row[3 * t + 1] as u16)) & 1 == 1
    &&& 0 <= row[3 * t + 2] < 12 && (mask >> (row[3 * t + 2] as u16)) & 1 == 1
}

/// Index of the first triple of `row` that is not consistent with
/// `mask`, scanning from `t` (5 when all are consistent).
pub open spec fn kept_triples(mask: u16, row: Seq<i8>, t: int) -> int
    decreases 5 - t,
{
    if t < 0 || t >= 5 {
        5
    } else if triple_ok(mask, row, t) {
        kept_triples(mask, row, t + 1)
    } else {
        t
    }
}

/// `row` with everything from its first inconsistent triple on replaced
/// by `-1`: the longest valid prefix the validation keeps.
pub open spec fn sanitize_row(mask: u16, row: Seq<i8>) -> Seq<i8> {
    Seq::new(15, |j: int| if j < 3 * kept_triples(mask, row, 0) { row[j] } else { -1i8 })
}

/// Scanning starts where the consistent prefix ends.
proof fn lemma_kept_from(mask: u16, row: Seq<i8>, t: int)
    requires
        0 <= t <= 5,
        forall|tt: int| 0 <= tt < t ==> #[trigger] triple_ok(mask, row, tt),
    ensures
        kept_triples(mask, row, 0) == kept_triples(mask, row, t),
        t <= kept_triples(mask, row, 0) <= 5,
    decreases t,
{
    if t > 0 {
        lemma_kept_from(mask, row, t - 1);
        assert(triple_ok(mask, row, t - 1));
        assert(kept_triples(mask, row, t - 1) == kept_triples(mask, row, t));
    }
    lemma_kept_range(mask, row, t);
}

/// The scan result lies between its start and 5.
proof fn lemma_kept_range(mask: u16, row: Seq<i8>, t: int)
    requires 0 <= t <= 5,
    ensures t <= kept_triples(mask, row, t) <= 5,
    decreases 5 - t,
{
    if t < 5 && triple_ok(mask, row, t) {
        lemma_kept_range(mask, row, t + 1);
    }
}

/// The classic tables after validation: the edge table verbatim, and
/// each triangle row filtered to its longest valid prefix. On the
/// classic data the filter keeps every row whole; the tests check that.
pub open spec fn classic_tables(t: MarchTables) -> bool {
    &&& t.wf()
    &&& t.edge@ == classic_edge_seq()
    &&& forall|c: int| 0 <= c < 256 ==>
            (#[trigger] t.tri@[c])@ == sanitize_row(classic_edge(c), classic_row(c))
}

/// The validated Marching Cubes lookup tables.
pub struct MarchTables {
    pub edge: Vec<u16>,
    pub tri: Vec<Vec<i8>>,
}

impl MarchTables {
    pub open spec fn wf(self) -> bool {
        &&& self.edge@.len() == 256
        &&& self.tri@.len() == 256
        &&& forall|c: int| 0 <= c < 256 ==> row_ok(self.edge@[c], (#[trigger] self.tri@[c])@)
    }

    /// Build the tables, keeping for each configuration the longest
    /// prefix of the transcribed triangle row that is consistent with
    /// the edge mask: the result is exactly the classic tables run
    /// through that filter (which, on the classic data, keeps every row
    /// whole; the tests check that no row is cut).
    pub fn new() -> (r: MarchTables)
        ensures
            r.wf(),
            classic_tables(r),
    {
        let src_edge = edge_table_data();
        let src_tri = tri_table_data();
        proof {
            assert(src_edge@.len() == 256 && src_tri@.len() == 256);
        }
        let mut edge: Vec<u16> = Vec::new();
        let mut tri: Vec<Vec<i8>> = Vec::new();
        let mut c: usize = 0;
        while c < 256
            invariant
                src_edge@.len() == 256,
                src_tri@.len() == 256,
                forall|k: int| 0 <= k < 256 ==> #[trigger] src_edge@[k] == classic_edge(k),
                forall|k: int, j: int| 0 <= k < 256 && 0 <= j < 15 ==>
                    #[trigger] src_tri@[k][j] == classic_tri(k, j),
                edge@.len() == c,
                tri@.len() == c,
                c <= 256,
                forall|k: int| 0 <= k < c ==> row_ok(edge@[k], (#[trigger] tri@[k])@),
                forall|k: int| 0 <= k < c ==> #[trigger] edge@[k] == classic_edge(k),
                forall|k: int| 0 <= k < c ==>
                    (#[trigger] tri@[k])@ == sanitize_row(classic_edge(k), classic_row(k)),
            decreases 256 - c,
        {
            let mask: u16 = src_edge[c];
            let ghost rowc = classic_row(c as int);
            let mut out: Vec<i8> = Vec::new();
            let mut good = true;
            let ghost mut end: int = 0;
            let mut t: usize = 0;
            while t < 5
                invariant
                    src_tri@.len() == 256,
                    forall|k: int, j: int| 0 <= k < 256 && 0 <= j < 15 ==>
                        #[trigger] src_tri@[k][j] == classic_tri(k, j),
                    c < 256,
                    mask == classic_edge(c as int),
                    rowc == classic_row(c as int),
                    t <= 5,
                    out@.len() == 3 * t,
                    0 <= end <= 3 * t,
                    end % 3 == 0,
                    good <==> (end == 3 * t),
                    good ==> (forall|tt: int| 0 <= tt < t ==>
                        #[trigger] triple_ok(mask, rowc, tt)),
                    !good ==> end == 3 * kept_triples(mask, rowc, 0),
                    forall|jj: int| 0 <= jj < end ==>
                        0 <= #[trigger] out@[jj] < 12 && (mask >> (out@[jj] as u16)) & 1 == 1,
                    forall|jj: int| 0 <= jj < end ==> #[trigger] out@[jj] == rowc[jj],
                    forall|jj: int| end <= jj < 3 * t ==> #[trigger] out@[jj] == -1,
                decreases 5 - t,
            {
                let e0 = Self::entry(&src_tri, c, 3 * t);
                let e1 = Self::entry(&src_tri, c, 3 * t + 1);
                let e2 = Self::entry(&src_tri, c, 3 * t + 2);
                proof {
                    assert(e0 == rowc[3 * (t as int)]);
                    assert(e1 == rowc[3 * (t as int) + 1]);
                    assert(e2 == rowc[3 * (t as int) + 2]);
                }
                let valid = good
                    && 0 <= e0 && e0 < 12 && (mask >> (e0 as u16)) & 1 == 1
                    && 0 <= e1 && e1 < 12 && (mask >> (e1 as u16)) & 1 == 1
                    && 0 <= e2 && e2 < 12 && (mask >> (e2 as u16)) & 1 == 1;
                if valid {
                    out.push(e0);
                    out.push(e1);
                    out.push(e2);
                    proof {
                        end = end + 3;
                        assert(triple_ok(mask, rowc, t as int));
                    }
                } else {
                    proof {
                        if good {
                            // The scan stops here: this is the first
                            // inconsistent triple.
                            assert(!triple_ok(mask, rowc, t as int));
                            lemma_kept_from(mask, rowc, t as int);
                            assert(kept_triples(mask, rowc, t as int) == t as int);
                            assert(kept_triples(mask, rowc, 0) == t as int);
                        }
                    }
                    good = false;
                    out.push(-1);
                    out.push(-1);
                    out.push(-1);
                }
                t = t + 1;
            }
            proof {
                if good {
                    lemma_kept_from(mask, rowc, 5);
                    assert(kept_triples(mask, rowc, 0) == 5);
                } else {
                    lemma_kept_range(mask, rowc, 0);
                }
                assert(out@ =~= sanitize_row(mask, rowc));
                assert(row_ok(mask, out@)) by {
                    assert forall|j: int| 0 <= j < 15 implies -1 <= #[trigger] out@[j] < 12 by {
                        if j >= end {
                            assert(out@[j] == -1);
                        }
                    }
                    assert forall|j: int| 0 <= j < 14 && #[trigger] out@[j] == -1
                        implies out@[j + 1] == -1 by {
                        assert(j >= end);
                    }
                    assert forall|j: int| 0 < j < 15 && j % 3 != 0 implies
                        ((#[trigger] out@[j] >= 0) <==> (out@[j - 1] >= 0)) by {
                        assert(end != j);
                        if out@[j] >= 0 {
                            assert(j < end);
                        }
                        if out@[j - 1] >= 0 {
                            assert(j - 1 < end);
                            assert(j < end);
                        }
                    }
                }
            }
            edge.push(mask);
            tri.push(out);
            c = c + 1;
        }
        let r = MarchTables { edge, tri };
        proof {
            assert(r.edge@ =~= classic_edge_seq());
        }
        r
    }

    /// Triangle-table entry `(c, j)` of the transcription.
    fn entry(rows: &Vec<[i8; 15]>, c: usize, j: usize) -> (r: i8)
        requires
            c < rows@.len(),
            j < 15,
        ensures r == rows@[c as int][j as int],
    {
        rows[c][j]
    }
}

/// One mesh triangle: three vertex positions.
#[derive(Clone, Copy, Debug, PartialEq, Eq, Structural)]
pub struct Triangle {
    pub a: Vec3i,
    pub b: Vec3i,
    pub c: Vec3i,
}

impl Triangle {
    /// Vertex `v` of the triangle (0, 1 or 2).
    pub open spec fn vert(self, v: int) -> Vec3i {
        if v == 0 { self.a } else if v == 1 { self.b } else { self.c }
    }

    /// Vertex `v` of the triangle (0, 1 or 2).
    pub fn vertex(&self, v: usize) -> (r: Vec3i)
        requires v < 3,
        ensures r == self.vert(v as int),
    {
        if v == 0 { self.a } else if v == 1 { self.b } else { self.c }
    }

    pub open spec fn wf(self) -> bool {
        self.a.wf() && self.b.wf() && self.c.wf()
    }
}

/// Every emitted triangle's vertices come from flagged edge slots of
/// `row`, in order.
pub open spec fn tris_ok(
    rs: Seq<Triangle>,
    row: Seq<i8>,
    mask: u16,
    corners: Seq<Vec3i>,
    vals: Seq<int>,
) -> bool {
    forall|t: int, v: int| 0 <= t < rs.len() && 0 <= v < 3 ==> {
        let e = row[3 * t + v] as int;
        &&& 0 <= e < 12
        &&& (mask >> (e as u16)) & 1 == 1
        &&& (#[trigger] rs[t].vert(v)) == edge_vertex_spec(corners, vals, e)
        &&& rs[t].vert(v).wf()
    }
}

/// The triangles Marching Cubes emits for one cell, as a function of the
/// corner positions, the corner densities and the tables.
#[verifier::opaque]
pub open spec fn march_spec(
    corners: Seq<Vec3i>,
    vals: Seq<int>,
    tables: MarchTables,
) -> Seq<Triangle> {
    let config = config_spec(vals);
    let row = (tables.tri@[config])@;
    Seq::new((row_end_from(row, 0) / 3) as nat, |t: int| Triangle {
        a: edge_vertex_spec(corners, vals, row[3 * t] as int),
        b: edge_vertex_spec(corners, vals, row[3 * t + 1] as int),
        c: edge_vertex_spec(corners, vals, row[3 * t + 2] as int),
    })
}

/// Walk one triangle-table row, emitting a triangle for each aligned
/// triple of flagged edge slots.
fn emit_triangles(
    row: &Vec<i8>,
    slots: &[Option<Vec3i>; 12],
    mask: u16,
    Ghost(corners): Ghost<Seq<Vec3i>>,
    Ghost(vals): Ghost<Seq<int>>,
) -> (r: Vec<Triangle>)
    requires
        row_ok(mask, row@),
        forall|e: int| 0 <= e < 12 && (mask >> (e as u16)) & 1 == 1 ==>
            #[trigger] slots[e] == Some(edge_vertex_spec(corners, vals, e))
                && slots[e].unwrap().wf(),
    ensures
        r@.len() <= 5,
        3 * r@.len() == row_end_from(row@, 0),
        tris_ok(r@, row@, mask, corners, vals),
{
    let ghost rowseq = row@;
    let mut r: Vec<Triangle> = Vec::new();
    let mut j: usize = 0;
    let mut done = false;
    while j < 15 && !done
        invariant
            row_ok(mask, rowseq),
            rowseq == row@,
            forall|e: int| 0 <= e < 12 && (mask >> (e as u16)) & 1 == 1 ==>
                #[trigger] slots[e] == Some(edge_vertex_spec(corners, vals, e))
                    && slots[e].unwrap().wf(),
            j % 3 == 0,
            j <= 15,
            3 * r@.len() == j,
            !done ==> row_end_from(rowseq, 0) == row_end_from(rowseq, j as int),
            done ==> row_end_from(rowseq, 0) == j,
            tris_ok(r@, rowseq, mask, corners, vals),
        decreases 15 - j + (if done { 0int } else { 1int }),
    {
        let e0 = row[j];
        if e0 == -1 {
            proof {
                assert(row_end_from(rowseq, j as int) == j);
            }
            done = true;
        } else {
            proof {
                assert(rowseq[j as int] >= 0);
                assert((j + 1) % 3 != 0 && (j + 2) % 3 != 0);
                assert(rowseq[j + 1] >= 0);
                assert(rowseq[j + 2] >= 0);
                assert(row_end_from(rowseq, j as int) == row_end_from(rowseq, j + 1));
                assert(row_end_from(rowseq, j + 1) == row_end_from(rowseq, j + 2));
                assert(row_end_from(rowseq, j + 2) == row_end_from(rowseq, j + 3));
            }
            let e1 = row[j + 1];
            let e2 = row[j + 2];
            let v0 = match slots[e0 as usize] {
                Some(v) => v,
                None => { proof { assert(false); } Vec3i { x: 0, y: 0, z: 0 } },
            };
            let v1 = match slots[e1 as usize] {
                Some(v) => v,
                None => { proof { assert(false); } Vec3i { x: 0, y: 0, z: 0 } },
            };
            let v2 = match slots[e2 as usize] {
                Some(v) => v,
                None => { proof { assert(false); } Vec3i { x: 0, y: 0, z: 0 } },
            };
            let ghost oldlen = r@.len();
            let ghost oldr = r@;
            r.push(Triangle { a: v0, b: v1, c: v2 });
            proof {
                assert(3 * oldlen == j);
                assert(rowseq[j as int] == e0 && rowseq[j + 1] == e1 && rowseq[j + 2] == e2);
                assert forall|t: int, v: int| 0 <= t < r@.len() && 0 <= v < 3 implies {
                    let e = rowseq[3 * t + v] as int;
                    &&& 0 <= e < 12
                    &&& (mask >> (e as u16)) & 1 == 1
                    &&& (#[trigger] r@[t].vert(v)) == edge_vertex_spec(corners, vals, e)
                    &&& r@[t].vert(v).wf()
                } by {
                    assert(tris_ok(oldr, rowseq, mask, corners, vals));
                    if t < oldlen {
                        assert(r@ == oldr.push(Triangle { a: v0, b: v1, c: v2 }));
                        assert(r@[t] == oldr[t]);
                    } else {
                        assert(t == oldlen);
                        assert(r@[t] == (Triangle { a: v0, b: v1, c: v2 }));
                        assert(r@[t].vert(0) == v0 && r@[t].vert(1) == v1 && r@[t].vert(2) == v2);
                        assert(3 * t + 0 == j && 3 * t + 1 == j + 1 && 3 * t + 2 == j + 2);
                    }
                }
            }
            proof {
                assert(tris_ok(r@, rowseq, mask, corners, vals));
            }
            j = j + 3;
        }
    }
    proof {
        if !done {
            assert(row_end_from(rowseq, 15) == 15);
        }
    }
    r
}

/// Run Marching Cubes on one cell: emit one triangle for each aligned
/// triple of edge slots in the triangle-table row of the cell's
/// corner-sign configuration, each vertex placed by `vert_interp` on the
/// edge it names. Every emitted vertex lies on an edge flagged in the
/// edge table, and the triangle count is the row's non-terminated length
/// divided by 3.
/// Compute the crossing point for every edge flagged in `mask`.
fn build_slots(corners: &[Vec3i; 8], values: &[i64; 8], mask: u16) -> (slots: [Option<Vec3i>; 12])
    requires
        forall|i: int| 0 <= i < 8 ==> (#[trigger] corners[i]).wf(),
        forall|i: int| 0 <= i < 8 ==> in_unit_range(#[trigger] values[i] as int),
    ensures
        forall|e: int| 0 <= e < 12 && (mask >> (e as u16)) & 1 == 1 ==>
            #[trigger] slots[e] == Some(edge_vertex_spec(corners@, density_seq(values@), e))
                && slots[e].unwrap().wf(),
{
    let ghost vals = density_seq(values@);
    let s0 = if (mask >> 0u16) & 1 == 1 {
        Some(vert_interp(corners[0], values[0], corners[1], values[1]))
    } else { None };
    let s1 = if (mask >> 1u16) & 1 == 1 {
        Some(vert_interp(corners[0], values[0], corners[4], values[4]))
    } else { None };
    let s2 = if (mask >> 2u16) & 1 == 1 {
        Some(vert_interp(corners[4], values[4], corners[5], values[5]))
    } else { None };
    let s3 = if (mask >> 3u16) & 1 == 1 {
        Some(vert_interp(corners[1], values[1], corners[5], values[5]))
    } else { None };
    let s4 = if (mask >> 4u16) & 1 == 1 {
        Some(vert_interp(corners[2], values[2], corners[3], values[3]))
    } else { None };
    let s5 = if (mask >> 5u16) & 1 == 1 {
        Some(vert_interp(corners[2], values[2], corners[6], values[6]))
    } else { None };
    let s6 = if (mask >> 6u16) & 1 == 1 {
        Some(vert_interp(corners[6], values[6], corners[7], values[7]))
    } else { None };
    let s7 = if (mask >> 7u16) & 1 == 1 {
        Some(vert_interp(corners[3], values[3], corners[7], values[7]))
    } else { None };
    let s8 = if (mask >> 8u16) & 1 == 1 {
        Some(vert_interp(corners[0], values[0], corners[2], values[2]))
    } else { None };
    let s9 = if (mask >> 9u16) & 1 == 1 {
        Some(vert_interp(corners[4], values[4], corners[6], values[6]))
    } else { None };
    let s10 = if (mask >> 10u16) & 1 == 1 {
        Some(vert_interp(corners[5], values[5], corners[7], values[7]))
    } else { None };
    let s11 = if (mask >> 11u16) & 1 == 1 {
        Some(vert_interp(corners[1], values[1], corners[3], values[3]))
    } else { None };
    let slots: [Option<Vec3i>; 12] = [s0, s1, s2, s3, s4, s5, s6, s7, s8, s9, s10, s11];
    proof {
        assert forall|e: int| 0 <= e < 12 && (mask >> (e as u16)) & 1 == 1 implies
            #[trigger] slots[e] == Some(edge_vertex_spec(corners@, vals, e))
                && slots[e].unwrap().wf() by {
            assert(corners@[edge_corner_a(e)] == corners[edge_corner_a(e)]);
            assert(corners@[edge_corner_b(e)] == corners[edge_corner_b(e)]);
            assert(vals[edge_corner_a(e)] == values[edge_corner_a(e)] as int);
            assert(vals[edge_corner_b(e)] == values[edge_corner_b(e)] as int);
            if e == 0 { assert(slots[e] == s0); }
            else if e == 1 { assert(slots[e] == s1); }
            else if e == 2 { assert(slots[e] == s2); }
            else if e == 3 { assert(slots[e] == s3); }
            else if e == 4 { assert(slots[e] == s4); }
            else if e == 5 { assert(slots[e] == s5); }
            else if e == 6 { assert(slots[e] == s6); }
            else if e == 7 { assert(slots[e] == s7); }
            else if e == 8 { assert(slots[e] == s8); }
            else if e == 9 { assert(slots[e] == s9); }
            else if e == 10 { assert(slots[e] == s10); }
            else { assert(slots[e] == s11); }
        }
    }
    slots
}

#[verifier::rlimit(100)]
pub fn march_cube(corners: &[Vec3i; 8], values: &[i64; 8], tables: &MarchTables)
    -> (r: Vec<Triangle>)
    requires
        tables.wf(),
        forall|i: int| 0 <= i < 8 ==> (#[trigger] corners[i]).wf(),
        forall|i: int| 0 <= i < 8 ==> in_unit_range(#[trigger] values[i] as int),
    ensures
        ({
            let config = config_spec(density_seq(values@));
            let row = tables.tri@[config]@;
            &&& r@.len() <= 5
            &&& 3 * r@.len() == row_end_from(row, 0)
            &&& tris_ok(r@, row, tables.edge@[config], corners@, density_seq(values@))
            &&& r@ == march_spec(corners@, density_seq(values@), *tables)
        }),
{
    let ghost vals = density_seq(values@);
    let mut config: usize = 0;
    if values[0] > 0 { config = config + 1; }
    if values[1] > 0 { config = config + 2; }
    if values[2] > 0 { config = config + 4; }
    if values[3] > 0 { config = config + 8; }
    if values[4] > 0 { config = config + 16; }
    if values[5] > 0 { config = config + 32; }
    if values[6] > 0 { config = config + 64; }
    if values[7] > 0 { config = config + 128; }
    proof {
        assert(vals[0] == values[0] as int && vals[1] == values[1] as int
            && vals[2] == values[2] as int && vals[3] == values[3] as int
            && vals[4] == values[4] as int && vals[5] == values[5] as int
            && vals[6] == values[6] as int && vals[7] == values[7] as int);
        assert(config == config_spec(vals));
    }
    let mask = tables.edge[config];
    let slots = build_slots(corners, values, mask);
    let row = &tables.tri[config];
    let r = emit_triangles(row, &slots, mask, Ghost(corners@), Ghost(vals));
    proof {
        reveal(march_spec);
        let ms = march_spec(corners@, vals, *tables);
        assert(3 * r@.len() == row_end_from(row@, 0));
        assert(ms.len() == row_end_from(row@, 0) / 3);
        assert(r@.len() == ms.len());
        assert forall|t: int| 0 <= t < r@.len() implies r@[t] == ms[t] by {
            assert(r@[t].vert(0) == edge_vertex_spec(corners@, vals, row@[3 * t] as int));
            assert(r@[t].vert(1) == edge_vertex_spec(corners@, vals, row@[3 * t + 1] as int));
            assert(r@[t].vert(2) == edge_vertex_spec(corners@, vals, row@[3 * t + 2] as int));
        }
        assert(r@ =~= ms);
    }
    r
}

/// The single-inside-corner configuration keeps its full classic row
/// through validation: the tables emit exactly one triangle for it, on
/// the three edges incident to corner 0.
pub proof fn lemma_single_corner_row(t: MarchTables)
    requires
        classic_tables(t),
    ensures
        t.edge@[1] == 0x103u16,
        (t.tri@[1])@ == seq![1i8, 8i8, 0i8, -1i8, -1i8, -1i8, -1i8, -1i8, -1i8, -1i8, -1i8,
            -1i8, -1i8, -1i8, -1i8],
        row_end_from((t.tri@[1])@, 0) == 3,
{
    reveal(classic_edge);
    reveal(classic_tri);
    let mask = classic_edge(1);
    let row = classic_row(1);
    assert(mask == 0x103u16);
    assert(row[0] == 1i8 && row[1] == 8i8 && row[2] == 0i8 && row[3] == -1i8);
    assert((0x103u16 >> 1u16) & 1 == 1 && (0x103u16 >> 8u16) & 1 == 1
        && (0x103u16 >> 0u16) & 1 == 1) by (bit_vector);
    assert(triple_ok(mask, row, 0));
    assert(!triple_ok(mask, row, 1));
    assert(kept_triples(mask, row, 1) == 1);
    assert(kept_triples(mask, row, 0) == 1);
    assert((t.tri@[1])@ =~= seq![1i8, 8i8, 0i8, -1i8, -1i8, -1i8, -1i8, -1i8, -1i8, -1i8,
        -1i8, -1i8, -1i8, -1i8, -1i8]);
    let r1 = (t.tri@[1])@;
    assert(row_end_from(r1, 3) == 3);
    assert(row_end_from(r1, 2) == 3);
    assert(row_end_from(r1, 1) == 3);
    assert(row_end_from(r1, 0) == 3);
}

/// Marching one cell depends on the tables only through the triangle
/// rows' contents.
pub proof fn lemma_march_spec_tables(
    corners: Seq<Vec3i>,
    vals: Seq<int>,
    t1: MarchTables,
    t2: MarchTables,
)
    requires
        t1.tri@.len() == 256,
        t2.tri@.len() == 256,
        forall|c: int| 0 <= c < 256 ==> (#[trigger] t1.tri@[c])@ == (t2.tri@[c])@,
    ensures
        march_spec(corners, vals, t1) == march_spec(corners, vals, t2),
{
    reveal(march_spec);
    let config = config_spec(vals);
    assert(0 <= config < 256);
    assert((t1.tri@[config])@ == (t2.tri@[config])@);
}

/// The classic 256-entry edge table, in 8 chunks of 32: for each
/// corner-sign configuration, a bitmask of the crossed cube edges.
fn edge_chunk_0() -> (r: [u16; 32])
    ensures forall|i: int| 0 <= i < 32 ==> r[i] == classic_edge_0(i),
{
    [
        0x0, 0x103, 0x809, 0x90a, 0x130, 0x33, 0x939, 0x83a,
        0x890, 0x993, 0x99, 0x19a, 0x9a0, 0x8a3, 0x1a9, 0xaa,
        0x206, 0x305, 0xa0f, 0xb0c, 0x336, 0x235, 0xb3f, 0xa3c,
        0xa96, 0xb95, 0x29f, 0x39c, 0xba6, 0xaa5, 0x3af, 0x2ac,
    ]
}

fn edge_chunk_1() -> (r: [u16; 32])
    ensures forall|i: int| 0 <= i < 32 ==> r[i] == classic_edge_1(i),
{
    [
        0x40c, 0x50f, 0xc05, 0xd06, 0x53c, 0x43f, 0xd35, 0xc36,
        0xc9c, 0xd9f, 0x495, 0x596, 0xdac, 0xcaf, 0x5a5, 0x4a6,
        0x60a, 0x709, 0xe03, 0xf00, 0x73a, 0x639, 0xf33, 0xe30,
        0xe9a, 0xf99, 0x693, 0x790, 0xfaa, 0xea9, 0x7a3, 0x6a0,
    ]
}

fn edge_chunk_2() -> (r: [u16; 32])
    ensures forall|i: int| 0 <= i < 32 ==> r[i] == classic_edge_2(i),
{
    [
        0x260, 0x363, 0xa69, 0xb6a, 0x350, 0x253, 0xb59, 0xa5a,
        0xaf0, 0xbf3, 0x2f9, 0x3fa, 0xbc0, 0xac3, 0x3c9, 0x2ca,
        0x66, 0x165, 0x86f, 0x96c, 0x156, 0x55, 0x95f, 0x85c,
        0x8f6, 0x9f5, 0xff, 0x1fc, 0x9c6, 0x8c5, 0x1cf, 0xcc,
    ]
}

fn edge_chunk_3() -> (r: [u16; 32])
    ensures forall|i: int| 0 <= i < 32 ==> r[i] == classic_edge_3(i),
{
    [
        0x66c, 0x76f, 0xe65, 0xf66, 0x75c, 0x65f, 0xf55, 0xe56,
        0xefc, 0xfff, 0x6f5, 0x7f6, 0xfcc, 0xecf, 0x7c5, 0x6c6,
        0x46a, 0x569, 0xc63, 0xd60, 0x55a, 0x459, 0xd53, 0xc50,
        0xcfa, 0xdf9, 0x4f3, 0x5f0, 0xdca, 0xcc9, 0x5c3, 0x4c0,
    ]
}

fn edge_chunk_4() -> (r: [u16; 32])
    ensures forall|i: int| 0 <= i < 32 ==> r[i] == classic_edge_4(i),
{
    [
        0x4c0, 0x5c3, 0xcc9, 0xdca, 0x5f0, 0x4f3, 0xdf9, 0xcfa,
        0xc50, 0xd53, 0x459, 0x55a, 0xd60, 0xc63, 0x569, 0x46a,
        0x6c6, 0x7c5, 0xecf, 0xfcc, 0x7f6, 0x6f5, 0xfff, 0xefc,
        0xe56, 0xf55, 0x65f, 0x75c, 0xf66, 0xe65, 0x76f, 0x66c,
    ]
}

fn edge_chunk_5() -> (r: [u16; 32])
    ensures forall|i: int| 0 <= i < 32 ==> r[i] == classic_edge_5(i),
{
    [
        0xcc, 0x1cf, 0x8c5, 0x9c6, 0x1fc, 0xff, 0x9f5, 0x8f6,
        0x85c, 0x95f, 0x55, 0x156, 0x96c, 0x86f, 0x165, 0x66,
        0x2ca, 0x3c9, 0xac3, 0xbc0, 0x3fa, 0x2f9, 0xbf3, 0xaf0,
        0xa5a, 0xb59, 0x253, 0x350, 0xb6a, 0xa69, 0x363, 0x260,
    ]
}

fn edge_chunk_6() -> (r: [u16; 32])
    ensures forall|i: int| 0 <= i < 32 ==> r[i] == classic_edge_6(i),
{
    [
        0x6a0, 0x7a3, 0xea9, 0xfaa, 0x790, 0x693, 0xf99, 0xe9a,
        0xe30, 0xf33, 0x639, 0x73a, 0xf00, 0xe03, 0x709, 0x60a,
        0x4a6, 0x5a5, 0xcaf, 0xdac, 0x596, 0x495, 0xd9f, 0xc9c,
        0xc36, 0xd35, 0x43f, 0x53c, 0xd06, 0xc05, 0x50f, 0x40c,
    ]
}

fn edge_chunk_7() -> (r: [u16; 32])
    ensures forall|i: int| 0 <= i < 32 ==> r[i] == classic_edge_7(i),
{
    [
        0x2ac, 0x3af, 0xaa5, 0xba6, 0x39c, 0x29f, 0xb95, 0xa96,
        0xa3c, 0xb3f, 0x235, 0x336, 0xb0c, 0xa0f, 0x305, 0x206,
        0xaa, 0x1a9, 0x8a3, 0x9a0, 0x19a, 0x99, 0x993, 0x890,
        0x83a, 0x939, 0x33, 0x130, 0x90a, 0x809, 0x103, 0x0,
    ]
}

/// The classic 256x15 triangle table, in 16 chunks of 16 rows: for
/// each configuration, up to 5 triangles as triples of edge slots,
/// terminated by -1.
fn tri_chunk_0() -> (r: [[i8; 15]; 16])
    ensures forall|i: int, j: int| 0 <= i < 16 && 0 <= j < 15 ==>
        #[trigger] r[i][j] == classic_tri_0(i, j),
{
    [
        [-1, -1, -1, -1, -1, -1, -1, -1, -1, -1, -1, -1, -1, -1, -1],
        [1, 8, 0, -1, -1, -1, -1, -1, -1, -1, -1, -1, -1, -1, -1],
        [3, 0, 11, -1, -1, -1, -1, -1, -1, -1, -1, -1, -1, -1, -1],
        [1, 11, 3, 8, 11, 1, -1, -1, -1, -1, -1, -1, -1, -1, -1],
        [5, 4, 8, -1, -1, -1, -1, -1, -1, -1, -1, -1, -1, -1, -1],
        [5, 0, 1, 4, 0, 5, -1, -1, -1, -1, -1, -1, -1, -1, -1],
        [11, 3, 0, 4, 8, 5, -1, -1, -1, -1, -1, -1, -1, -1, -1],
        [11, 5, 4, 11, 3, 5, 3, 1, 5, -1, -1, -1, -1, -1, -1],
        [11, 4, 7, -1, -1, -1, -1, -1, -1, -1, -1, -1, -1, -1, -1],
        [0, 1, 8, 11, 4, 7, -1, -1, -1, -1, -1, -1, -1, -1, -1],
        [3, 4, 7, 0, 4, 3, -1, -1, -1, -1, -1, -1, -1, -1, -1],
        [4, 1, 8, 4, 7, 1, 7, 3, 1, -1, -1, -1, -1, -1, -1],
        [8, 7, 11, 5, 7, 8, -1, -1, -1, -1, -1, -1, -1, -1, -1],
        [0, 7, 11, 0, 1, 7, 1, 5, 7, -1, -1, -1, -1, -1, -1],
        [8, 3, 0, 8, 5, 3, 5, 7, 3, -1, -1, -1, -1, -1, -1],
        [3, 1, 7, 1, 5, 7, -1, -1, -1, -1, -1, -1, -1, -1, -1],
    ]
}

fn tri_chunk_1() -> (r: [[i8; 15]; 16])
    ensures forall|i: int, j: int| 0 <= i < 16 && 0 <= j < 15 ==>
        #[trigger] r[i][j] == classic_tri_1(i, j),
{
    [
        [2, 9, 1, -1, -1, -1, -1, -1, -1, -1, -1, -1, -1, -1, -1],
        [2, 8, 0, 9, 8, 2, -1, -1, -1, -1, -1, -1, -1, -1, -1],
        [2, 9, 1, 3, 0, 11, -1, -1, -1, -1, -1, -1, -1, -1, -1],
        [2, 11, 3, 2, 9, 11, 9, 8, 11, -1, -1, -1, -1, -1, -1],
        [1, 2, 9, 8, 5, 4, -1, -1, -1, -1, -1, -1, -1, -1, -1],
        [5, 2, 9, 5, 4, 2, 4, 0, 2, -1, -1, -1, -1, -1, -1],
        [3, 0, 11, 1, 2, 9, 4, 8, 5, -1, -1, -1, -1, -1, -1],
        [11, 5, 4, 3, 5, 11, 3, 9, 5, 3, 2, 9, -1, -1, -1],
        [2, 9, 1, 7, 11, 4, -1, -1, -1, -1, -1, -1, -1, -1, -1],
        [8, 2, 9, 8, 0, 2, 11, 4, 7, -1, -1, -1, -1, -1, -1],
        [3, 4, 7, 3, 0, 4, 1, 2, 9, -1, -1, -1, -1, -1, -1],
        [2, 9, 8, 2, 8, 7, 2, 7, 3, 7, 8, 4, -1, -1, -1],
        [8, 7, 11, 8, 5, 7, 9, 1, 2, -1, -1, -1, -1, -1, -1],
        [9, 0, 2, 9, 7, 0, 9, 5, 7, 11, 0, 7, -1, -1, -1],
        [2, 9, 1, 3, 0, 5, 3, 5, 7, 5, 0, 8, -1, -1, -1],
        [2, 9, 5, 2, 5, 3, 3, 5, 7, -1, -1, -1, -1, -1, -1],
    ]
}

fn tri_chunk_2() -> (r: [[i8; 15]; 16])
    ensures forall|i: int, j: int| 0 <= i < 16 && 0 <= j < 15 ==>
        #[trigger] r[i][j] == classic_tri_2(i, j),
{
    [
        [2, 3, 10, -1, -1, -1, -1, -1, -1, -1, -1, -1, -1, -1, -1],
        [3, 10, 2, 0, 1, 8, -1, -1, -1, -1, -1, -1, -1, -1, -1],
        [10, 0, 11, 2, 0, 10, -1, -1, -1, -1, -1, -1, -1, -1, -1],
        [1, 10, 2, 1, 8, 10, 8, 11, 10, -1, -1, -1, -1, -1, -1],
        [2, 3, 10, 8, 5, 4, -1, -1, -1, -1, -1, -1, -1, -1, -1],
        [0, 5, 4, 0, 1, 5, 2, 3, 10, -1, -1, -1, -1, -1, -1],
        [0, 10, 2, 0, 11, 10, 4, 8, 5, -1, -1, -1, -1, -1, -1],
        [2, 1, 5, 2, 5, 11, 2, 11, 10, 4, 11, 5, -1, -1, -1],
        [10, 2, 3, 7, 11, 4, -1, -1, -1, -1, -1, -1, -1, -1, -1],
        [2, 3, 10, 0, 1, 8, 7, 11, 4, -1, -1, -1, -1, -1, -1],
        [10, 4, 7, 10, 2, 4, 2, 0, 4, -1, -1, -1, -1, -1, -1],
        [1, 8, 4, 2, 1, 4, 2, 4, 7, 2, 7, 10, -1, -1, -1],
        [7, 8, 5, 7, 11, 8, 3, 10, 2, -1, -1, -1, -1, -1, -1],
        [10, 2, 3, 7, 11, 1, 7, 1, 5, 1, 11, 0, -1, -1, -1],
        [10, 5, 7, 10, 0, 5, 10, 2, 0, 0, 8, 5, -1, -1, -1],
        [10, 2, 1, 10, 1, 7, 7, 1, 5, -1, -1, -1, -1, -1, -1],
    ]
}

fn tri_chunk_3() -> (r: [[i8; 15]; 16])
    ensures forall|i: int, j: int| 0 <= i < 16 && 0 <= j < 15 ==>
        #[trigger] r[i][j] == classic_tri_3(i, j),
{
    [
        [3, 9, 1, 10, 9, 3, -1, -1, -1, -1, -1, -1, -1, -1, -1],
        [3, 8, 0, 3, 10, 8, 10, 9, 8, -1, -1, -1, -1, -1, -1],
        [0, 9, 1, 0, 11, 9, 11, 10, 9, -1, -1, -1, -1, -1, -1],
        [10, 9, 11, 11, 9, 8, -1, -1, -1, -1, -1, -1, -1, -1, -1],
        [9, 3, 10, 9, 1, 3, 8, 5, 4, -1, -1, -1, -1, -1, -1],
        [3, 4, 0, 3, 9, 4, 3, 10, 9, 9, 5, 4, -1, -1, -1],
        [4, 8, 5, 0, 11, 1, 11, 9, 1, 11, 10, 9, -1, -1, -1],
        [5, 4, 11, 5, 11, 9, 9, 11, 10, -1, -1, -1, -1, -1, -1],
        [3, 9, 1, 3, 10, 9, 7, 11, 4, -1, -1, -1, -1, -1, -1],
        [7, 11, 4, 3, 10, 0, 10, 8, 0, 10, 9, 8, -1, -1, -1],
        [7, 10, 9, 7, 9, 0, 7, 0, 4, 1, 0, 9, -1, -1, -1],
        [4, 7, 10, 4, 10, 8, 8, 10, 9, -1, -1, -1, -1, -1, -1],
        [11, 5, 7, 11, 8, 5, 10, 9, 3, 9, 1, 3, -1, -1, -1],
        [10, 9, 0, 10, 0, 3, 9, 5, 0, 11, 0, 7, 5, 7, 0],
        [5, 7, 0, 5, 0, 8, 7, 10, 0, 1, 0, 9, 10, 9, 0],
        [10, 9, 5, 7, 10, 5, -1, -1, -1, -1, -1, -1, -1, -1, -1],
    ]
}

fn tri_chunk_4() -> (r: [[i8; 15]; 16])
    ensures forall|i: int, j: int| 0 <= i < 16 && 0 <= j < 15 ==>
        #[trigger] r[i][j] == classic_tri_4(i, j),
{
    [
        [6, 5, 9, -1, -1, -1, -1, -1, -1, -1, -1, -1, -1, -1, -1],
        [9, 6, 5, 1, 8, 0, -1, -1, -1, -1, -1, -1, -1, -1, -1],
        [3, 0, 11, 9, 6, 5, -1, -1, -1, -1, -1, -1, -1, -1, -1],
        [1, 11, 3, 1, 8, 11, 5, 9, 6, -1, -1, -1, -1, -1, -1],
        [4, 9, 6, 8, 9, 4, -1, -1, -1, -1, -1, -1, -1, -1, -1],
        [9, 0, 1, 9, 6, 0, 6, 4, 0, -1, -1, -1, -1, -1, -1],
        [4, 9, 6, 4, 8, 9, 0, 11, 3, -1, -1, -1, -1, -1, -1],
        [9, 3, 1, 9, 4, 3, 9, 6, 4, 4, 11, 3, -1, -1, -1],
        [7, 11, 4, 6, 5, 9, -1, -1, -1, -1, -1, -1, -1, -1, -1],
        [1, 8, 0, 5, 9, 6, 11, 4, 7, -1, -1, -1, -1, -1, -1],
        [4, 3, 0, 4, 7, 3, 6, 5, 9, -1, -1, -1, -1, -1, -1],
        [9, 6, 5, 1, 8, 7, 1, 7, 3, 7, 8, 4, -1, -1, -1],
        [7, 9, 6, 7, 11, 9, 11, 8, 9, -1, -1, -1, -1, -1, -1],
        [0, 7, 11, 1, 7, 0, 1, 6, 7, 1, 9, 6, -1, -1, -1],
        [0, 7, 3, 0, 9, 7, 0, 8, 9, 6, 7, 9, -1, -1, -1],
        [9, 6, 7, 9, 7, 1, 1, 7, 3, -1, -1, -1, -1, -1, -1],
    ]
}

fn tri_chunk_5() -> (r: [[i8; 15]; 16])
    ensures forall|i: int, j: int| 0 <= i < 16 && 0 <= j < 15 ==>
        #[trigger] r[i][j] == classic_tri_5(i, j),
{
    [
        [6, 1, 2, 5, 1, 6, -1, -1, -1, -1, -1, -1, -1, -1, -1],
        [8, 6, 5, 8, 0, 6, 0, 2, 6, -1, -1, -1, -1, -1, -1],
        [1, 6, 5, 1, 2, 6, 3, 0, 11, -1, -1, -1, -1, -1, -1],
        [3, 8, 11, 3, 6, 8, 3, 2, 6, 5, 8, 6, -1, -1, -1],
        [1, 4, 8, 1, 2, 4, 2, 6, 4, -1, -1, -1, -1, -1, -1],
        [2, 6, 0, 6, 4, 0, -1, -1, -1, -1, -1, -1, -1, -1, -1],
        [3, 0, 11, 1, 2, 8, 2, 4, 8, 2, 6, 4, -1, -1, -1],
        [11, 3, 2, 11, 2, 4, 4, 2, 6, -1, -1, -1, -1, -1, -1],
        [6, 1, 2, 6, 5, 1, 4, 7, 11, -1, -1, -1, -1, -1, -1],
        [7, 11, 4, 6, 5, 0, 6, 0, 2, 0, 5, 8, -1, -1, -1],
        [3, 0, 7, 7, 0, 4, 1, 2, 6, 1, 6, 5, -1, -1, -1],
        [7, 3, 8, 7, 8, 4, 3, 2, 8, 5, 8, 6, 2, 6, 8],
        [7, 2, 6, 7, 8, 2, 7, 11, 8, 8, 1, 2, -1, -1, -1],
        [7, 11, 0, 7, 0, 6, 6, 0, 2, -1, -1, -1, -1, -1, -1],
        [2, 6, 8, 2, 8, 1, 6, 7, 8, 0, 8, 3, 7, 3, 8],
        [2, 6, 7, 3, 2, 7, -1, -1, -1, -1, -1, -1, -1, -1, -1],
    ]
}

fn tri_chunk_6() -> (r: [[i8; 15]; 16])
    ensures forall|i: int, j: int| 0 <= i < 16 && 0 <= j < 15 ==>
        #[trigger] r[i][j] == classic_tri_6(i, j),
{
    [
        [2, 3, 10, 9, 6, 5, -1, -1, -1, -1, -1, -1, -1, -1, -1],
        [10, 2, 3, 9, 6, 5, 0, 1, 8, -1, -1, -1, -1, -1, -1],
        [10, 0, 11, 10, 2, 0, 9, 6, 5, -1, -1, -1, -1, -1, -1],
        [6, 5, 9, 10, 2, 8, 10, 8, 11, 8, 2, 1, -1, -1, -1],
        [9, 4, 8, 9, 6, 4, 10, 2, 3, -1, -1, -1, -1, -1, -1],
        [3, 10, 2, 0, 1, 6, 0, 6, 4, 6, 1, 9, -1, -1, -1],
        [6, 8, 9, 6, 4, 8, 2, 0, 10, 0, 11, 10, -1, -1, -1],
        [6, 4, 1, 6, 1, 9, 4, 11, 1, 2, 1, 10, 11, 10, 1],
        [3, 10, 2, 7, 11, 4, 9, 6, 5, -1, -1, -1, -1, -1, -1],
        [2, 3, 10, 6, 5, 9, 0, 1, 8, 7, 11, 4, -1, -1, -1],
        [9, 6, 5, 10, 2, 7, 2, 4, 7, 2, 0, 4, -1, -1, -1],
        [2, 7, 10, 2, 4, 7, 2, 1, 4, 8, 4, 1, 9, 6, 5],
        [2, 3, 10, 9, 6, 11, 9, 11, 8, 11, 6, 7, -1, -1, -1],
        [1, 11, 0, 1, 7, 11, 1, 9, 7, 6, 7, 9, 2, 3, 10],
        [2, 0, 7, 2, 7, 10, 0, 8, 7, 6, 7, 9, 8, 9, 7],
        [9, 6, 7, 9, 7, 1, 10, 2, 7, 2, 1, 7, -1, -1, -1],
    ]
}

fn tri_chunk_7() -> (r: [[i8; 15]; 16])
    ensures forall|i: int, j: int| 0 <= i < 16 && 0 <= j < 15 ==>
        #[trigger] r[i][j] == classic_tri_7(i, j),
{
    [
        [6, 3, 10, 6, 5, 3, 5, 1, 3, -1, -1, -1, -1, -1, -1],
        [6, 5, 8, 10, 6, 8, 10, 8, 0, 10, 0, 3, -1, -1, -1],
        [0, 11, 10, 0, 10, 5, 0, 5, 1, 5, 10, 6, -1, -1, -1],
        [6, 5, 8, 6, 8, 10, 10, 8, 11, -1, -1, -1, -1, -1, -1],
        [10, 6, 4, 10, 4, 1, 10, 1, 3, 8, 1, 4, -1, -1, -1],
        [3, 10, 6, 3, 6, 0, 0, 6, 4, -1, -1, -1, -1, -1, -1],
        [11, 10, 1, 11, 1, 0, 10, 6, 1, 8, 1, 4, 6, 4, 1],
        [11, 10, 6, 4, 11, 6, -1, -1, -1, -1, -1, -1, -1, -1, -1],
        [11, 4, 7, 3, 10, 5, 3, 5, 1, 5, 10, 6, -1, -1, -1],
        [10, 0, 3, 10, 8, 0, 10, 6, 8, 5, 8, 6, 7, 11, 4],
        [5, 1, 10, 5, 10, 6, 1, 0, 10, 7, 10, 4, 0, 4, 10],
        [4, 7, 10, 4, 10, 8, 6, 5, 10, 5, 8, 10, -1, -1, -1],
        [11, 8, 6, 11, 6, 7, 8, 1, 6, 10, 6, 3, 1, 3, 6],
        [7, 11, 0, 7, 0, 6, 3, 10, 0, 10, 6, 0, -1, -1, -1],
        [10, 6, 7, 0, 8, 1, -1, -1, -1, -1, -1, -1, -1, -1, -1],
        [10, 6, 7, -1, -1, -1, -1, -1, -1, -1, -1, -1, -1, -1, -1],
    ]
}

fn tri_chunk_8() -> (r: [[i8; 15]; 16])
    ensures forall|i: int, j: int| 0 <= i < 16 && 0 <= j < 15 ==>
        #[trigger] r[i][j] == classic_tri_8(i, j),
{
    [
        [10, 7, 6, -1, -1, -1, -1, -1, -1, -1, -1, -1, -1, -1, -1],
        [10, 7, 6, 0, 1, 8, -1, -1, -1, -1, -1, -1, -1, -1, -1],
        [3, 0, 11, 10, 7, 6, -1, -1, -1, -1, -1, -1, -1, -1, -1],
        [11, 1, 8, 11, 3, 1, 10, 7, 6, -1, -1, -1, -1, -1, -1],
        [6, 10, 7, 5, 4, 8, -1, -1, -1, -1, -1, -1, -1, -1, -1],
        [5, 0, 1, 5, 4, 0, 7, 6, 10, -1, -1, -1, -1, -1, -1],
        [10, 7, 6, 11, 3, 0, 5, 4, 8, -1, -1, -1, -1, -1, -1],
        [10, 7, 6, 11, 3, 4, 3, 5, 4, 3, 1, 5, -1, -1, -1],
        [11, 6, 10, 4, 6, 11, -1, -1, -1, -1, -1, -1, -1, -1, -1],
        [11, 6, 10, 11, 4, 6, 8, 0, 1, -1, -1, -1, -1, -1, -1],
        [3, 6, 10, 3, 0, 6, 0, 4, 6, -1, -1, -1, -1, -1, -1],
        [10, 4, 6, 10, 1, 4, 10, 3, 1, 8, 4, 1, -1, -1, -1],
        [6, 8, 5, 6, 10, 8, 10, 11, 8, -1, -1, -1, -1, -1, -1],
        [0, 10, 11, 0, 5, 10, 0, 1, 5, 5, 6, 10, -1, -1, -1],
        [6, 8, 5, 10, 8, 6, 10, 0, 8, 10, 3, 0, -1, -1, -1],
        [6, 10, 3, 6, 3, 5, 5, 3, 1, -1, -1, -1, -1, -1, -1],
    ]
}

fn tri_chunk_9() -> (r: [[i8; 15]; 16])
    ensures forall|i: int, j: int| 0 <= i < 16 && 0 <= j < 15 ==>
        #[trigger] r[i][j] == classic_tri_9(i, j),
{
    [
        [10, 7, 6, 2, 9, 1, -1, -1, -1, -1, -1, -1, -1, -1, -1],
        [2, 8, 0, 2, 9, 8, 6, 10, 7, -1, -1, -1, -1, -1, -1],
        [1, 2, 9, 3, 0, 11, 6, 10, 7, -1, -1, -1, -1, -1, -1],
        [6, 10, 7, 2, 9, 3, 9, 11, 3, 9, 8, 11, -1, -1, -1],
        [2, 9, 1, 6, 10, 7, 8, 5, 4, -1, -1, -1, -1, -1, -1],
        [10, 7, 6, 2, 9, 4, 2, 4, 0, 4, 9, 5, -1, -1, -1],
        [4, 8, 5, 3, 0, 11, 2, 9, 1, 6, 10, 7, -1, -1, -1],
        [3, 4, 11, 3, 5, 4, 3, 2, 5, 9, 5, 2, 10, 7, 6],
        [6, 11, 4, 6, 10, 11, 2, 9, 1, -1, -1, -1, -1, -1, -1],
        [2, 9, 0, 0, 9, 8, 6, 10, 11, 6, 11, 4, -1, -1, -1],
        [1, 2, 9, 3, 0, 10, 0, 6, 10, 0, 4, 6, -1, -1, -1],
        [9, 8, 3, 9, 3, 2, 8, 4, 3, 10, 3, 6, 4, 6, 3],
        [2, 9, 1, 6, 10, 5, 10, 8, 5, 10, 11, 8, -1, -1, -1],
        [10, 11, 5, 10, 5, 6, 11, 0, 5, 9, 5, 2, 0, 2, 5],
        [10, 5, 6, 10, 8, 5, 10, 3, 8, 0, 8, 3, 2, 9, 1],
        [6, 10, 3, 6, 3, 5, 2, 9, 3, 9, 5, 3, -1, -1, -1],
    ]
}

fn tri_chunk_10() -> (r: [[i8; 15]; 16])
    ensures forall|i: int, j: int| 0 <= i < 16 && 0 <= j < 15 ==>
        #[trigger] r[i][j] == classic_tri_10(i, j),
{
    [
        [2, 7, 6, 3, 7, 2, -1, -1, -1, -1, -1, -1, -1, -1, -1],
        [2, 7, 6, 2, 3, 7, 0, 1, 8, -1, -1, -1, -1, -1, -1],
        [7, 0, 11, 7, 6, 0, 6, 2, 0, -1, -1, -1, -1, -1, -1],
        [7, 6, 2, 7, 2, 8, 7, 8, 11, 8, 2, 1, -1, -1, -1],
        [7, 2, 3, 7, 6, 2, 5, 4, 8, -1, -1, -1, -1, -1, -1],
        [1, 4, 0, 1, 5, 4, 3, 7, 2, 7, 6, 2, -1, -1, -1],
        [5, 4, 8, 7, 6, 11, 6, 0, 11, 6, 2, 0, -1, -1, -1],
        [6, 2, 11, 6, 11, 7, 2, 1, 11, 4, 11, 5, 1, 5, 11],
        [11, 2, 3, 11, 4, 2, 4, 6, 2, -1, -1, -1, -1, -1, -1],
        [1, 8, 0, 2, 3, 4, 2, 4, 6, 4, 3, 11, -1, -1, -1],
        [2, 0, 6, 6, 0, 4, -1, -1, -1, -1, -1, -1, -1, -1, -1],
        [1, 8, 4, 1, 4, 2, 2, 4, 6, -1, -1, -1, -1, -1, -1],
        [3, 11, 8, 3, 8, 6, 3, 6, 2, 5, 6, 8, -1, -1, -1],
        [1, 5, 11, 1, 11, 0, 5, 6, 11, 3, 11, 2, 6, 2, 11],
        [8, 5, 6, 8, 6, 0, 0, 6, 2, -1, -1, -1, -1, -1, -1],
        [6, 2, 1, 5, 6, 1, -1, -1, -1, -1, -1, -1, -1, -1, -1],
    ]
}

fn tri_chunk_11() -> (r: [[i8; 15]; 16])
    ensures forall|i: int, j: int| 0 <= i < 16 && 0 <= j < 15 ==>
        #[trigger] r[i][j] == classic_tri_11(i, j),
{
    [
        [9, 7, 6, 9, 1, 7, 1, 3, 7, -1, -1, -1, -1, -1, -1],
        [0, 3, 7, 0, 7, 9, 0, 9, 8, 6, 9, 7, -1, -1, -1],
        [0, 11, 7, 1, 0, 7, 1, 7, 6, 1, 6, 9, -1, -1, -1],
        [7, 6, 9, 7, 9, 11, 11, 9, 8, -1, -1, -1, -1, -1, -1],
        [8, 5, 4, 9, 1, 6, 1, 7, 6, 1, 3, 7, -1, -1, -1],
        [4, 0, 9, 4, 9, 5, 0, 3, 9, 6, 9, 7, 3, 7, 9],
        [1, 6, 9, 1, 7, 6, 1, 0, 7, 11, 7, 0, 8, 5, 4],
        [5, 4, 11, 5, 11, 9, 7, 6, 11, 6, 9, 11, -1, -1, -1],
        [9, 1, 3, 9, 3, 4, 9, 4, 6, 4, 3, 11, -1, -1, -1],
        [4, 6, 3, 4, 3, 11, 6, 9, 3, 0, 3, 8, 9, 8, 3],
        [9, 1, 0, 9, 0, 6, 6, 0, 4, -1, -1, -1, -1, -1, -1],
        [4, 6, 9, 8, 4, 9, -1, -1, -1, -1, -1, -1, -1, -1, -1],
        [1, 3, 6, 1, 6, 9, 3, 11, 6, 5, 6, 8, 11, 8, 6],
        [3, 11, 0, 9, 5, 6, -1, -1, -1, -1, -1, -1, -1, -1, -1],
        [8, 5, 6, 8, 6, 0, 9, 1, 6, 1, 0, 6, -1, -1, -1],
        [6, 9, 5, -1, -1, -1, -1, -1, -1, -1, -1, -1, -1, -1, -1],
    ]
}

fn tri_chunk_12() -> (r: [[i8; 15]; 16])
    ensures forall|i: int, j: int| 0 <= i < 16 && 0 <= j < 15 ==>
        #[trigger] r[i][j] == classic_tri_12(i, j),
{
    [
        [10, 5, 9, 7, 5, 10, -1, -1, -1, -1, -1, -1, -1, -1, -1],
        [5, 10, 7, 5, 9, 10, 1, 8, 0, -1, -1, -1, -1, -1, -1],
        [10, 5, 9, 10, 7, 5, 11, 3, 0, -1, -1, -1, -1, -1, -1],
        [10, 7, 9, 9, 7, 5, 11, 3, 1, 11, 1, 8, -1, -1, -1],
        [4, 10, 7, 4, 8, 10, 8, 9, 10, -1, -1, -1, -1, -1, -1],
        [7, 9, 10, 7, 0, 9, 7, 4, 0, 1, 9, 0, -1, -1, -1],
        [3, 0, 11, 10, 7, 8, 10, 8, 9, 8, 7, 4, -1, -1, -1],
        [3, 1, 4, 3, 4, 11, 1, 9, 4, 7, 4, 10, 9, 10, 4],
        [5, 11, 4, 5, 9, 11, 9, 10, 11, -1, -1, -1, -1, -1, -1],
        [0, 1, 8, 11, 4, 9, 11, 9, 10, 9, 4, 5, -1, -1, -1],
        [3, 0, 4, 3, 4, 9, 3, 9, 10, 9, 4, 5, -1, -1, -1],
        [9, 10, 4, 9, 4, 5, 10, 3, 4, 8, 4, 1, 3, 1, 4],
        [10, 11, 9, 11, 8, 9, -1, -1, -1, -1, -1, -1, -1, -1, -1],
        [0, 1, 9, 0, 9, 11, 11, 9, 10, -1, -1, -1, -1, -1, -1],
        [3, 0, 8, 3, 8, 10, 10, 8, 9, -1, -1, -1, -1, -1, -1],
        [3, 1, 9, 10, 3, 9, -1, -1, -1, -1, -1, -1, -1, -1, -1],
    ]
}

fn tri_chunk_13() -> (r: [[i8; 15]; 16])
    ensures forall|i: int, j: int| 0 <= i < 16 && 0 <= j < 15 ==>
        #[trigger] r[i][j] == classic_tri_13(i, j),
{
    [
        [10, 1, 2, 10, 7, 1, 7, 5, 1, -1, -1, -1, -1, -1, -1],
        [10, 7, 5, 10, 5, 0, 10, 0, 2, 0, 5, 8, -1, -1, -1],
        [11, 3, 0, 10, 7, 2, 7, 1, 2, 7, 5, 1, -1, -1, -1],
        [7, 5, 2, 7, 2, 10, 5, 8, 2, 3, 2, 11, 8, 11, 2],
        [1, 4, 8, 2, 4, 1, 2, 7, 4, 2, 10, 7, -1, -1, -1],
        [10, 7, 4, 10, 4, 2, 2, 4, 0, -1, -1, -1, -1, -1, -1],
        [2, 8, 1, 2, 4, 8, 2, 10, 4, 7, 4, 10, 3, 0, 11],
        [11, 3, 2, 11, 2, 4, 10, 7, 2, 7, 4, 2, -1, -1, -1],
        [2, 5, 1, 2, 11, 5, 2, 10, 11, 4, 5, 11, -1, -1, -1],
        [0, 2, 5, 0, 5, 8, 2, 10, 5, 4, 5, 11, 10, 11, 5],
        [0, 4, 10, 0, 10, 3, 4, 5, 10, 2, 10, 1, 5, 1, 10],
        [2, 10, 3, 8, 4, 5, -1, -1, -1, -1, -1, -1, -1, -1, -1],
        [1, 2, 10, 1, 10, 8, 8, 10, 11, -1, -1, -1, -1, -1, -1],
        [10, 11, 0, 2, 10, 0, -1, -1, -1, -1, -1, -1, -1, -1, -1],
        [1, 2, 10, 1, 10, 8, 3, 0, 10, 0, 8, 10, -1, -1, -1],
        [2, 10, 3, -1, -1, -1, -1, -1, -1, -1, -1, -1, -1, -1, -1],
    ]
}

fn tri_chunk_14() -> (r: [[i8; 15]; 16])
    ensures forall|i: int, j: int| 0 <= i < 16 && 0 <= j < 15 ==>
        #[trigger] r[i][j] == classic_tri_14(i, j),
{
    [
        [2, 5, 9, 2, 3, 5, 3, 7, 5, -1, -1, -1, -1, -1, -1],
        [0, 1, 8, 2, 3, 9, 3, 5, 9, 3, 7, 5, -1, -1, -1],
        [9, 2, 0, 9, 0, 7, 9, 7, 5, 11, 7, 0, -1, -1, -1],
        [8, 11, 2, 8, 2, 1, 11, 7, 2, 9, 2, 5, 7, 5, 2],
        [2, 8, 9, 2, 7, 8, 2, 3, 7, 7, 4, 8, -1, -1, -1],
        [3, 7, 9, 3, 9, 2, 7, 4, 9, 1, 9, 0, 4, 0, 9],
        [8, 9, 7, 8, 7, 4, 9, 2, 7, 11, 7, 0, 2, 0, 7],
        [2, 1, 9, 7, 4, 11, -1, -1, -1, -1, -1, -1, -1, -1, -1],
        [11, 4, 5, 3, 11, 5, 3, 5, 9, 3, 9, 2, -1, -1, -1],
        [3, 9, 2, 3, 5, 9, 3, 11, 5, 4, 5, 11, 0, 1, 8],
        [5, 9, 2, 5, 2, 4, 4, 2, 0, -1, -1, -1, -1, -1, -1],
        [5, 9, 2, 5, 2, 4, 1, 8, 2, 8, 4, 2, -1, -1, -1],
        [2, 3, 11, 2, 11, 9, 9, 11, 8, -1, -1, -1, -1, -1, -1],
        [0, 1, 9, 0, 9, 11, 2, 3, 9, 3, 11, 9, -1, -1, -1],
        [2, 0, 8, 9, 2, 8, -1, -1, -1, -1, -1, -1, -1, -1, -1],
        [2, 1, 9, -1, -1, -1, -1, -1, -1, -1, -1, -1, -1, -1, -1],
    ]
}

fn tri_chunk_15() -> (r: [[i8; 15]; 16])
    ensures forall|i: int, j: int| 0 <= i < 16 && 0 <= j < 15 ==>
        #[trigger] r[i][j] == classic_tri_15(i, j),
{
    [
        [3, 7, 1, 1, 7, 5, -1, -1, -1, -1, -1, -1, -1, -1, -1],
        [8, 0, 3, 8, 3, 5, 5, 3, 7, -1, -1, -1, -1, -1, -1],
        [0, 11, 7, 0, 7, 1, 1, 7, 5, -1, -1, -1, -1, -1, -1],
        [8, 11, 7, 5, 8, 7, -1, -1, -1, -1, -1, -1, -1, -1, -1],
        [4, 8, 1, 4, 1, 7, 7, 1, 3, -1, -1, -1, -1, -1, -1],
        [3, 7, 4, 0, 3, 4, -1, -1, -1, -1, -1, -1, -1, -1, -1],
        [4, 8, 1, 4, 1, 7, 0, 11, 1, 11, 7, 1, -1, -1, -1],
        [11, 7, 4, -1, -1, -1, -1, -1, -1, -1, -1, -1, -1, -1, -1],
        [11, 4, 5, 11, 5, 3, 3, 5, 1, -1, -1, -1, -1, -1, -1],
        [8, 0, 3, 8, 3, 5, 11, 4, 3, 4, 5, 3, -1, -1, -1],
        [5, 1, 0, 4, 5, 0, -1, -1, -1, -1, -1, -1, -1, -1, -1],
        [5, 8, 4, -1, -1, -1, -1, -1, -1, -1, -1, -1, -1, -1, -1],
        [1, 3, 11, 8, 1, 11, -1, -1, -1, -1, -1, -1, -1, -1, -1],
        [3, 11, 0, -1, -1, -1, -1, -1, -1, -1, -1, -1, -1, -1, -1],
        [1, 0, 8, -1, -1, -1, -1, -1, -1, -1, -1, -1, -1, -1, -1],
        [-1, -1, -1, -1, -1, -1, -1, -1, -1, -1, -1, -1, -1, -1, -1],
    ]
}

/// All 256 edge-table entries in order.
fn edge_table_data() -> (r: Vec<u16>)
    ensures
        r@.len() == 256,
        forall|c: int| 0 <= c < 256 ==> #[trigger] r@[c] == classic_edge(c),
{
    let mut v: Vec<u16> = Vec::new();
    let chunk_0 = edge_chunk_0();
    let ghost before_0 = v@;
    append_edge_chunk(&mut v, &chunk_0);
    proof {
        reveal(classic_edge);
        assert forall|c: int| 0 <= c < 32 implies
            #[trigger] v@[c] == classic_edge(c) by {
            if c < 0 {
                assert(v@[c] == before_0[c]);
            } else {
                assert(v@[0 + (c - 0)] == chunk_0[c - 0]);
                assert(chunk_0[c - 0] == classic_edge_0(c - 0));
            }
        }
    }
    let chunk_1 = edge_chunk_1();
    let ghost before_1 = v@;
    append_edge_chunk(&mut v, &chunk_1);
    proof {
        reveal(classic_edge);
        assert forall|c: int| 0 <= c < 64 implies
            #[trigger] v@[c] == classic_edge(c) by {
            if c < 32 {
                assert(v@[c] == before_1[c]);
            } else {
                assert(v@[32 + (c - 32)] == chunk_1[c - 32]);
                assert(chunk_1[c - 32] == classic_edge_1(c - 32));
            }
        }
    }
    let chunk_2 = edge_chunk_2();
    let ghost before_2 = v@;
    append_edge_chunk(&mut v, &chunk_2);
    proof {
        reveal(classic_edge);
        assert forall|c: int| 0 <= c < 96 implies
            #[trigger] v@[c] == classic_edge(c) by {
            if c < 64 {
                assert(v@[c] == before_2[c]);
            } else {
                assert(v@[64 + (c - 64)] == chunk_2[c - 64]);
                assert(chunk_2[c - 64] == classic_edge_2(c - 64));
            }
        }
    }
    let chunk_3 = edge_chunk_3();
    let ghost before_3 = v@;
    append_edge_chunk(&mut v, &chunk_3);
    proof {
        reveal(classic_edge);
        assert forall|c: int| 0 <= c < 128 implies
            #[trigger] v@[c] == classic_edge(c) by {
            if c < 96 {
                assert(v@[c] == before_3[c]);
            } else {
                assert(v@[96 + (c - 96)] == chunk_3[c - 96]);
                assert(chunk_3[c - 96] == classic_edge_3(c - 96));
            }
        }
    }
    let chunk_4 = edge_chunk_4();
    let ghost before_4 = v@;
    append_edge_chunk(&mut v, &chunk_4);
    proof {
        reveal(classic_edge);
        assert forall|c: int| 0 <= c < 160 implies
            #[trigger] v@[c] == classic_edge(c) by {
            if c < 128 {
                assert(v@[c] == before_4[c]);
            } else {
                assert(v@[128 + (c - 128)] == chunk_4[c - 128]);
                assert(chunk_4[c - 128] == classic_edge_4(c - 128));
            }
        }
    }
    let chunk_5 = edge_chunk_5();
    let ghost before_5 = v@;
    append_edge_chunk(&mut v, &chunk_5);
    proof {
        reveal(classic_edge);
        assert forall|c: int| 0 <= c < 192 implies
            #[trigger] v@[c] == classic_edge(c) by {
            if c < 160 {
                assert(v@[c] == before_5[c]);
            } else {
                assert(v@[160 + (c - 160)] == chunk_5[c - 160]);
                assert(chunk_5[c - 160] == classic_edge_5(c - 160));
            }
        }
    }
    let chunk_6 = edge_chunk_6();
    let ghost before_6 = v@;
    append_edge_chunk(&mut v, &chunk_6);
    proof {
        reveal(classic_edge);
        assert forall|c: int| 0 <= c < 224 implies
            #[trigger] v@[c] == classic_edge(c) by {
            if c < 192 {
                assert(v@[c] == before_6[c]);
            } else {
                assert(v@[192 + (c - 192)] == chunk_6[c - 192]);
                assert(chunk_6[c - 192] == classic_edge_6(c - 192));
            }
        }
    }
    let chunk_7 = edge_chunk_7();
    let ghost before_7 = v@;
    append_edge_chunk(&mut v, &chunk_7);
    proof {
        reveal(classic_edge);
        assert forall|c: int| 0 <= c < 256 implies
            #[trigger] v@[c] == classic_edge(c) by {
            if c < 224 {
                assert(v@[c] == before_7[c]);
            } else {
                assert(v@[224 + (c - 224)] == chunk_7[c - 224]);
                assert(chunk_7[c - 224] == classic_edge_7(c - 224));
            }
        }
    }
    v
}

fn append_edge_chunk(v: &mut Vec<u16>, chunk: &[u16; 32])
    requires old(v)@.len() <= 1000,
    ensures
        final(v)@.len() == old(v)@.len() + 32,
        forall|i: int| 0 <= i < old(v)@.len() ==> #[trigger] final(v)@[i] == old(v)@[i],
        forall|i: int| 0 <= i < 32 ==> #[trigger] final(v)@[old(v)@.len() + i] == chunk[i],
{
    let mut i: usize = 0;
    while i < 32
        invariant
            i <= 32,
            v@.len() == old(v)@.len() + i,
            forall|j: int| 0 <= j < old(v)@.len() ==> #[trigger] v@[j] == old(v)@[j],
            forall|j: int| 0 <= j < i ==> #[trigger] v@[old(v)@.len() + j] == chunk[j],
        decreases 32 - i,
    {
        v.push(chunk[i]);
        i = i + 1;
    }
}

/// All 256 triangle-table rows in order.
fn tri_table_data() -> (r: Vec<[i8; 15]>)
    ensures
        r@.len() == 256,
        forall|c: int, j: int| 0 <= c < 256 && 0 <= j < 15 ==>
            #[trigger] r@[c][j] == classic_tri(c, j),
{
    let mut v: Vec<[i8; 15]> = Vec::new();
    let chunk_0 = tri_chunk_0();
    let ghost before_0 = v@;
    append_tri_chunk(&mut v, &chunk_0);
    proof {
        reveal(classic_tri);
        assert forall|c: int, j: int| 0 <= c < 16 && 0 <= j < 15 implies
            #[trigger] v@[c][j] == classic_tri(c, j) by {
            if c < 0 {
                assert(v@[c] == before_0[c]);
                assert(before_0[c][j] == classic_tri(c, j));
            } else {
                assert(v@[0 + (c - 0)] == chunk_0[c - 0]);
                assert(chunk_0[c - 0][j] == classic_tri_0(c - 0, j));
            }
        }
    }
    let chunk_1 = tri_chunk_1();
    let ghost before_1 = v@;
    append_tri_chunk(&mut v, &chunk_1);
    proof {
        reveal(classic_tri);
        assert forall|c: int, j: int| 0 <= c < 32 && 0 <= j < 15 implies
            #[trigger] v@[c][j] == classic_tri(c, j) by {
            if c < 16 {
                assert(v@[c] == before_1[c]);
                assert(before_1[c][j] == classic_tri(c, j));
            } else {
                assert(v@[16 + (c - 16)] == chunk_1[c - 16]);
                assert(chunk_1[c - 16][j] == classic_tri_1(c - 16, j));
            }
        }
    }
    let chunk_2 = tri_chunk_2();
    let ghost before_2 = v@;
    append_tri_chunk(&mut v, &chunk_2);
    proof {
        reveal(classic_tri);
        assert forall|c: int, j: int| 0 <= c < 48 && 0 <= j < 15 implies
            #[trigger] v@[c][j] == classic_tri(c, j) by {
            if c < 32 {
                assert(v@[c] == before_2[c]);
                assert(before_2[c][j] == classic_tri(c, j));
            } else {
                assert(v@[32 + (c - 32)] == chunk_2[c - 32]);
                assert(chunk_2[c - 32][j] == classic_tri_2(c - 32, j));
            }
        }
    }
    let chunk_3 = tri_chunk_3();
    let ghost before_3 = v@;
    append_tri_chunk(&mut v, &chunk_3);
    proof {
        reveal(classic_tri);
        assert forall|c: int, j: int| 0 <= c < 64 && 0 <= j < 15 implies
            #[trigger] v@[c][j] == classic_tri(c, j) by {
            if c < 48 {
                assert(v@[c] == before_3[c]);
                assert(before_3[c][j] == classic_tri(c, j));
            } else {
                assert(v@[48 + (c - 48)] == chunk_3[c - 48]);
                assert(chunk_3[c - 48][j] == classic_tri_3(c - 48, j));
            }
        }
    }
    let chunk_4 = tri_chunk_4();
    let ghost before_4 = v@;
    append_tri_chunk(&mut v, &chunk_4);
    proof {
        reveal(classic_tri);
        assert forall|c: int, j: int| 0 <= c < 80 && 0 <= j < 15 implies
            #[trigger] v@[c][j] == classic_tri(c, j) by {
            if c < 64 {
                assert(v@[c] == before_4[c]);
                assert(before_4[c][j] == classic_tri(c, j));
            } else {
                assert(v@[64 + (c - 64)] == chunk_4[c - 64]);
                assert(chunk_4[c - 64][j] == classic_tri_4(c - 64, j));
            }
        }
    }
    let chunk_5 = tri_chunk_5();
    let ghost before_5 = v@;
    append_tri_chunk(&mut v, &chunk_5);
    proof {
        reveal(classic_tri);
        assert forall|c: int, j: int| 0 <= c < 96 && 0 <= j < 15 implies
            #[trigger] v@[c][j] == classic_tri(c, j) by {
            if c < 80 {
                assert(v@[c] == before_5[c]);
                assert(before_5[c][j] == classic_tri(c, j));
            } else {
                assert(v@[80 + (c - 80)] == chunk_5[c - 80]);
                assert(chunk_5[c - 80][j] == classic_tri_5(c - 80, j));
            }
        }
    }
    let chunk_6 = tri_chunk_6();
    let ghost before_6 = v@;
    append_tri_chunk(&mut v, &chunk_6);
    proof {
        reveal(classic_tri);
        assert forall|c: int, j: int| 0 <= c < 112 && 0 <= j < 15 implies
            #[trigger] v@[c][j] == classic_tri(c, j) by {
            if c < 96 {
                assert(v@[c] == before_6[c]);
                assert(before_6[c][j] == classic_tri(c, j));
            } else {
                assert(v@[96 + (c - 96)] == chunk_6[c - 96]);
                assert(chunk_6[c - 96][j] == classic_tri_6(c - 96, j));
            }
        }
    }
    let chunk_7 = tri_chunk_7();
    let ghost before_7 = v@;
    append_tri_chunk(&mut v, &chunk_7);
    proof {
        reveal(classic_tri);
        assert forall|c: int, j: int| 0 <= c < 128 && 0 <= j < 15 implies
            #[trigger] v@[c][j] == classic_tri(c, j) by {
            if c < 112 {
                assert(v@[c] == before_7[c]);
                assert(before_7[c][j] == classic_tri(c, j));
            } else {
                assert(v@[112 + (c - 112)] == chunk_7[c - 112]);
                assert(chunk_7[c - 112][j] == classic_tri_7(c - 112, j));
            }
        }
    }
    let chunk_8 = tri_chunk_8();
    let ghost before_8 = v@;
    append_tri_chunk(&mut v, &chunk_8);
    proof {
        reveal(classic_tri);
        assert forall|c: int, j: int| 0 <= c < 144 && 0 <= j < 15 implies
            #[trigger] v@[c][j] == classic_tri(c, j) by {
            if c < 128 {
                assert(v@[c] == before_8[c]);
                assert(before_8[c][j] == classic_tri(c, j));
            } else {
                assert(v@[128 + (c - 128)] == chunk_8[c - 128]);
                assert(chunk_8[c - 128][j] == classic_tri_8(c - 128, j));
            }
        }
    }
    let chunk_9 = tri_chunk_9();
    let ghost before_9 = v@;
    append_tri_chunk(&mut v, &chunk_9);
    proof {
        reveal(classic_tri);
        assert forall|c: int, j: int| 0 <= c < 160 && 0 <= j < 15 implies
            #[trigger] v@[c][j] == classic_tri(c, j) by {
            if c < 144 {
                assert(v@[c] == before_9[c]);
                assert(before_9[c][j] == classic_tri(c, j));
            } else {
                assert(v@[144 + (c - 144)] == chunk_9[c - 144]);
                assert(chunk_9[c - 144][j] == classic_tri_9(c - 144, j));
            }
        }
    }
    let chunk_10 = tri_chunk_10();
    let ghost before_10 = v@;
    append_tri_chunk(&mut v, &chunk_10);
    proof {
        reveal(classic_tri);
        assert forall|c: int, j: int| 0 <= c < 176 && 0 <= j < 15 implies
            #[trigger] v@[c][j] == classic_tri(c, j) by {
            if c < 160 {
                assert(v@[c] == before_10[c]);
                assert(before_10[c][j] == classic_tri(c, j));
            } else {
                assert(v@[160 + (c - 160)] == chunk_10[c - 160]);
                assert(chunk_10[c - 160][j] == classic_tri_10(c - 160, j));
            }
        }
    }
    let chunk_11 = tri_chunk_11();
    let ghost before_11 = v@;
    append_tri_chunk(&mut v, &chunk_11);
    proof {
        reveal(classic_tri);
        assert forall|c: int, j: int| 0 <= c < 192 && 0 <= j < 15 implies
            #[trigger] v@[c][j] == classic_tri(c, j) by {
            if c < 176 {
                assert(v@[c] == before_11[c]);
                assert(before_11[c][j] == classic_tri(c, j));
            } else {
                assert(v@[176 + (c - 176)] == chunk_11[c - 176]);
                assert(chunk_11[c - 176][j] == classic_tri_11(c - 176, j));
            }
        }
    }
    let chunk_12 = tri_chunk_12();
    let ghost before_12 = v@;
    append_tri_chunk(&mut v, &chunk_12);
    proof {
        reveal(classic_tri);
        assert forall|c: int, j: int| 0 <= c < 208 && 0 <= j < 15 implies
            #[trigger] v@[c][j] == classic_tri(c, j) by {
            if c < 192 {
                assert(v@[c] == before_12[c]);
                assert(before_12[c][j] == classic_tri(c, j));
            } else {
                assert(v@[192 + (c - 192)] == chunk_12[c - 192]);
                assert(chunk_12[c - 192][j] == classic_tri_12(c - 192, j));
            }
        }
    }
    let chunk_13 = tri_chunk_13();
    let ghost before_13 = v@;
    append_tri_chunk(&mut v, &chunk_13);
    proof {
        reveal(classic_tri);
        assert forall|c: int, j: int| 0 <= c < 224 && 0 <= j < 15 implies
            #[trigger] v@[c][j] == classic_tri(c, j) by {
            if c < 208 {
                assert(v@[c] == before_13[c]);
                assert(before_13[c][j] == classic_tri(c, j));
            } else {
                assert(v@[208 + (c - 208)] == chunk_13[c - 208]);
                assert(chunk_13[c - 208][j] == classic_tri_13(c - 208, j));
            }
        }
    }
    let chunk_14 = tri_chunk_14();
    let ghost before_14 = v@;
    append_tri_chunk(&mut v, &chunk_14);
    proof {
        reveal(classic_tri);
        assert forall|c: int, j: int| 0 <= c < 240 && 0 <= j < 15 implies
            #[trigger] v@[c][j] == classic_tri(c, j) by {
            if c < 224 {
                assert(v@[c] == before_14[c]);
                assert(before_14[c][j] == classic_tri(c, j));
            } else {
                assert(v@[224 + (c - 224)] == chunk_14[c - 224]);
                assert(chunk_14[c - 224][j] == classic_tri_14(c - 224, j));
            }
        }
    }
    let chunk_15 = tri_chunk_15();
    let ghost before_15 = v@;
    append_tri_chunk(&mut v, &chunk_15);
    proof {
        reveal(classic_tri);
        assert forall|c: int, j: int| 0 <= c < 256 && 0 <= j < 15 implies
            #[trigger] v@[c][j] == classic_tri(c, j) by {
            if c < 240 {
                assert(v@[c] == before_15[c]);
                assert(before_15[c][j] == classic_tri(c, j));
            } else {
                assert(v@[240 + (c - 240)] == chunk_15[c - 240]);
                assert(chunk_15[c - 240][j] == classic_tri_15(c - 240, j));
            }
        }
    }
    v
}

fn append_tri_chunk(v: &mut Vec<[i8; 15]>, chunk: &[[i8; 15]; 16])
    requires old(v)@.len() <= 1000,
    ensures
        final(v)@.len() == old(v)@.len() + 16,
        forall|i: int| 0 <= i < old(v)@.len() ==> #[trigger] final(v)@[i] == old(v)@[i],
        forall|i: int| 0 <= i < 16 ==> #[trigger] final(v)@[old(v)@.len() + i] == chunk[i],
{
    let mut i: usize = 0;
    while i < 16
        invariant
            i <= 16,
            v@.len() == old(v)@.len() + i,
            forall|j: int| 0 <= j < old(v)@.len() ==> #[trigger] v@[j] == old(v)@[j],
            forall|j: int| 0 <= j < i ==> #[trigger] v@[old(v)@.len() + j] == chunk[j],
        decreases 16 - i,
    {
        v.push(chunk[i]);
        i = i + 1;
    }
}

} // verus!

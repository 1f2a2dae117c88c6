//! Axis-aligned boxes over fixed-point coordinates.
//!
//! Boxes are described by a start corner and a nonnegative size. The
//! four-way intersection classification drives the sculpting engine's
//! subdivision heuristic, so its result is specified exactly.

use vstd::prelude::*;

verus! {

/// Coordinates are kept well inside `i64` so that sums never overflow.
pub const COORD_LIMIT: i64 = 0x4_0000_0000_0000;

/// A point or vector in fixed-point world space.
#[derive(Clone, Copy, Debug, PartialEq, Eq, Structural)]
pub struct Vec3i {
    pub x: i64,
    pub y: i64,
    pub z: i64,
}

pub open spec fn coord_ok(v: int) -> bool {
    -(COORD_LIMIT as int) <= v <= COORD_LIMIT as int
}

impl Vec3i {
    pub open spec fn wf(self) -> bool {
        coord_ok(self.x as int) && coord_ok(self.y as int) && coord_ok(self.z as int)
    }

    pub fn new(x: i64, y: i64, z: i64) -> (r: Vec3i)
        ensures r == (Vec3i { x, y, z }),
    {
        Vec3i { x, y, z }
    }

    pub open spec fn spec_axis(self, axis: int) -> int {
        if axis == 0 {
            self.x as int
        } else if axis == 1 {
            self.y as int
        } else {
            self.z as int
        }
    }

    /// Component of the vector along `axis` (0 = x, 1 = y, 2 = z).
    pub fn axis(&self, axis: usize) -> (r: i64)
        requires axis < 3,
        ensures r == self.spec_axis(axis as int),
    {
        if axis == 0 {
            self.x
        } else if axis == 1 {
            self.y
        } else {
            self.z
        }
    }
}

/// The offset of corner `i` of a unit cube along the x axis, in Z-order.
pub open spec fn corner_dx(i: int) -> int {
    i % 2
}

/// The offset of corner `i` of a unit cube along the y axis, in Z-order.
pub open spec fn corner_dy(i: int) -> int {
    (i / 2) % 2
}

/// The offset of corner `i` of a unit cube along the z axis, in Z-order.
pub open spec fn corner_dz(i: int) -> int {
    (i / 4) % 2
}

/// Describes how an AABB intersects with another AABB.
#[derive(Clone, Copy, Debug, PartialEq, Eq, Structural)]
pub enum IntersectType {
    /// The two AABBs do not intersect.
    DoesNotIntersect,
    /// The two AABBs intersect, and the intersecting space is provided.
    Intersects(AABB),
    /// This AABB encloses the other AABB.
    Contains,
    /// This AABB is enclosed by the other AABB.
    ContainedBy,
}

/// Per-axis intersection classification.
#[derive(Clone, Copy, Debug, PartialEq, Eq, Structural)]
pub enum AxisIntersect {
    DoesNotIntersect,
    Intersects(i64, i64),
    Contains,
    ContainedBy,
}

/// Axis-Aligned Bounding Box.
#[derive(Clone, Copy, Debug, PartialEq, Eq, Structural)]
pub struct AABB {
    pub start: Vec3i,
    pub size: Vec3i,
}

/// Classification of one axis: intervals are `[s0, e0)` and `[s1, e1)`.
pub open spec fn axis_intersect_spec(s0: int, e0: int, s1: int, e1: int) -> AxisIntersect {
    if s0 >= e1 || e0 <= s1 {
        AxisIntersect::DoesNotIntersect
    } else if s0 <= s1 && e0 >= e1 {
        AxisIntersect::Contains
    } else if (s0 >= s1 && e0 < e1) || (s0 > s1 && e0 <= e1) {
        AxisIntersect::ContainedBy
    } else {
        AxisIntersect::Intersects(
            (if s0 >= s1 { s0 } else { s1 }) as i64,
            (if e0 <= e1 { e0 } else { e1 }) as i64,
        )
    }
}

impl AABB {
    /// Sizes are nonnegative and both corners stay within coordinate range.
    pub open spec fn wf(self) -> bool {
        &&& self.start.wf()
        &&& 0 <= self.size.x && 0 <= self.size.y && 0 <= self.size.z
        &&& coord_ok(self.start.x + self.size.x)
        &&& coord_ok(self.start.y + self.size.y)
        &&& coord_ok(self.start.z + self.size.z)
    }

    pub open spec fn spec_end(self, axis: int) -> int {
        self.start.spec_axis(axis) + self.size.spec_axis(axis)
    }

    /// An AABB that extends over the whole unit cube, one `UNIT` on edge.
    pub fn unit_cube() -> (r: AABB)
        ensures
            r == AABB::unit_cube_spec(),
            r.wf(),
    {
        AABB {
            start: Vec3i { x: 0, y: 0, z: 0 },
            size: Vec3i { x: crate::fixed::UNIT, y: crate::fixed::UNIT, z: crate::fixed::UNIT },
        }
    }

    pub open spec fn unit_cube_spec() -> AABB {
        AABB {
            start: Vec3i { x: 0, y: 0, z: 0 },
            size: Vec3i { x: crate::fixed::UNIT, y: crate::fixed::UNIT, z: crate::fixed::UNIT },
        }
    }

    /// Whether `point` lies within the AABB (ends included).
    pub open spec fn contains_spec(self, point: Vec3i) -> bool {
        forall|axis: int| 0 <= axis < 3 ==>
            self.start.spec_axis(axis) <= #[trigger] point.spec_axis(axis) <= self.spec_end(axis)
    }

    /// Returns true if `point` lies within the AABB.
    pub fn contains(&self, point: Vec3i) -> (r: bool)
        requires self.wf(),
        ensures r == self.contains_spec(point),
    {
        let r = self.start.x <= point.x && point.x <= self.start.x + self.size.x
            && self.start.y <= point.y && point.y <= self.start.y + self.size.y
            && self.start.z <= point.z && point.z <= self.start.z + self.size.z;
        assert(r == self.contains_spec(point)) by {
            if r {
                assert forall|axis: int| 0 <= axis < 3 implies
                    self.start.spec_axis(axis) <= #[trigger] point.spec_axis(axis)
                        <= self.spec_end(axis) by {
                }
            } else {
                assert(!(self.start.spec_axis(0) <= point.spec_axis(0) <= self.spec_end(0))
                    || !(self.start.spec_axis(1) <= point.spec_axis(1) <= self.spec_end(1))
                    || !(self.start.spec_axis(2) <= point.spec_axis(2) <= self.spec_end(2)));
            }
        }
        r
    }

    /// Expands the AABB to contain `point`.
    pub fn expand(&mut self, point: Vec3i)
        requires
            old(self).wf(),
            point.wf(),
        ensures
            final(self).wf(),
            final(self).start.x == vstd::math::min(old(self).start.x as int, point.x as int),
            final(self).start.y == vstd::math::min(old(self).start.y as int, point.y as int),
            final(self).start.z == vstd::math::min(old(self).start.z as int, point.z as int),
            final(self).spec_end(0) == vstd::math::max(old(self).spec_end(0), point.x as int),
            final(self).spec_end(1) == vstd::math::max(old(self).spec_end(1), point.y as int),
            final(self).spec_end(2) == vstd::math::max(old(self).spec_end(2), point.z as int),
    {
        let end_x = if self.start.x + self.size.x >= point.x { self.start.x + self.size.x } else { point.x };
        let end_y = if self.start.y + self.size.y >= point.y { self.start.y + self.size.y } else { point.y };
        let end_z = if self.start.z + self.size.z >= point.z { self.start.z + self.size.z } else { point.z };
        if point.x < self.start.x { self.start.x = point.x; }
        if point.y < self.start.y { self.start.y = point.y; }
        if point.z < self.start.z { self.start.z = point.z; }
        self.size.x = end_x - self.start.x;
        self.size.y = end_y - self.start.y;
        self.size.z = end_z - self.start.z;
    }

    /// Create a new AABB that encloses all of the points provided: the
    /// smallest such box, each of its six faces touching some point.
    /// An empty list gives the degenerate box at the origin.
    pub fn containing(points: &Vec<Vec3i>) -> (r: AABB)
        requires
            forall|i: int| 0 <= i < points@.len() ==> (#[trigger] points@[i]).wf(),
        ensures
            r.wf(),
            points@.len() == 0 ==> r == (AABB {
                start: Vec3i { x: 0, y: 0, z: 0 },
                size: Vec3i { x: 0, y: 0, z: 0 },
            }),
            forall|i: int| 0 <= i < points@.len() ==> r.contains_spec(#[trigger] points@[i]),
            points@.len() > 0 ==> {
                &&& exists|i: int| 0 <= i < points@.len() && r.start.x == (#[trigger] points@[i]).x
                &&& exists|i: int| 0 <= i < points@.len() && r.start.y == (#[trigger] points@[i]).y
                &&& exists|i: int| 0 <= i < points@.len() && r.start.z == (#[trigger] points@[i]).z
                &&& exists|i: int| 0 <= i < points@.len() && r.spec_end(0) == (#[trigger] points@[i]).x
                &&& exists|i: int| 0 <= i < points@.len() && r.spec_end(1) == (#[trigger] points@[i]).y
                &&& exists|i: int| 0 <= i < points@.len() && r.spec_end(2) == (#[trigger] points@[i]).z
            },
    {
        if points.len() == 0 {
            return AABB {
                start: Vec3i { x: 0, y: 0, z: 0 },
                size: Vec3i { x: 0, y: 0, z: 0 },
            };
        }
        let first = points[0];
        let mut aabb = AABB { start: first, size: Vec3i { x: 0, y: 0, z: 0 } };
        let ghost mut ax: int = 0;
        let ghost mut ay: int = 0;
        let ghost mut az: int = 0;
        let ghost mut bx: int = 0;
        let ghost mut by: int = 0;
        let ghost mut bz: int = 0;
        let mut i: usize = 1;
        while i < points.len()
            invariant
                1 <= i <= points@.len(),
                forall|j: int| 0 <= j < points@.len() ==> (#[trigger] points@[j]).wf(),
                aabb.wf(),
                forall|j: int| 0 <= j < i ==> aabb.contains_spec(#[trigger] points@[j]),
                0 <= ax < i && aabb.start.x == points@[ax].x,
                0 <= ay < i && aabb.start.y == points@[ay].y,
                0 <= az < i && aabb.start.z == points@[az].z,
                0 <= bx < i && aabb.spec_end(0) == points@[bx].x,
                0 <= by < i && aabb.spec_end(1) == points@[by].y,
                0 <= bz < i && aabb.spec_end(2) == points@[bz].z,
            decreases points@.len() - i,
    {
            let p = points[i];
            let ghost prev = aabb;
            aabb.expand(p);
            proof {
                if (p.x as int) < prev.start.x as int { ax = i as int; }
                if (p.y as int) < prev.start.y as int { ay = i as int; }
                if (p.z as int) < prev.start.z as int { az = i as int; }
                if (p.x as int) > prev.spec_end(0) { bx = i as int; }
                if (p.y as int) > prev.spec_end(1) { by = i as int; }
                if (p.z as int) > prev.spec_end(2) { bz = i as int; }
                assert forall|j: int| 0 <= j < i + 1 implies aabb.contains_spec(#[trigger] points@[j]) by {
                    let q = points@[j];
                    assert forall|axis: int| 0 <= axis < 3 implies
                        aabb.start.spec_axis(axis) <= #[trigger] q.spec_axis(axis)
                            <= aabb.spec_end(axis) by {
                        if j < i {
                            assert(prev.contains_spec(q));
                            assert(prev.start.spec_axis(axis) <= q.spec_axis(axis)
                                <= prev.spec_end(axis));
                        }
                    }
                }
            }
            i = i + 1;
        }
        proof {
            assert(aabb.start.x == points@[ax].x);
            assert(aabb.start.y == points@[ay].y);
            assert(aabb.start.z == points@[az].z);
            assert(aabb.spec_end(0) == points@[bx].x);
            assert(aabb.spec_end(1) == points@[by].y);
            assert(aabb.spec_end(2) == points@[bz].z);
        }
        aabb
    }

    /// Create an AABB centered on `pos`, using `extents` as the length of
    /// the box's edges (halved with rounding toward negative infinity).
    pub fn from_extents(pos: Vec3i, extents: Vec3i) -> (r: AABB)
        requires
            pos.wf(),
            extents.wf(),
            0 <= extents.x && 0 <= extents.y && 0 <= extents.z,
        ensures
            r.start.x == pos.x - extents.x / 2 && r.size.x == extents.x,
            r.start.y == pos.y - extents.y / 2 && r.size.y == extents.y,
            r.start.z == pos.z - extents.z / 2 && r.size.z == extents.z,
    {
        AABB {
            start: Vec3i {
                x: pos.x - extents.x / 2,
                y: pos.y - extents.y / 2,
                z: pos.z - extents.z / 2,
            },
            size: extents,
        }
    }

    /// Create an AABB centered on `pos`, using `radius * 2` as the length
    /// of the box's edges.
    pub fn from_radius(pos: Vec3i, radius: i64) -> (r: AABB)
        requires
            pos.wf(),
            0 <= radius <= COORD_LIMIT,
        ensures
            r.start.x == pos.x - radius && r.size.x == 2 * radius,
            r.start.y == pos.y - radius && r.size.y == 2 * radius,
            r.start.z == pos.z - radius && r.size.z == 2 * radius,
    {
        AABB {
            start: Vec3i { x: pos.x - radius, y: pos.y - radius, z: pos.z - radius },
            size: Vec3i { x: 2 * radius, y: 2 * radius, z: 2 * radius },
        }
    }

    /// The position of corner `i` of the AABB, in Z-order.
    pub open spec fn corner_spec(self, i: int) -> Vec3i {
        Vec3i {
            x: (self.start.x + self.size.x * corner_dx(i)) as i64,
            y: (self.start.y + self.size.y * corner_dy(i)) as i64,
            z: (self.start.z + self.size.z * corner_dz(i)) as i64,
        }
    }

    /// Get the positions of the AABB's corners in Z-order.
    pub fn calculate_corners(&self) -> (r: [Vec3i; 8])
        requires self.wf(),
        ensures
            forall|i: int| 0 <= i < 8 ==> r[i] == self.corner_spec(i),
            forall|i: int| 0 <= i < 8 ==> (#[trigger] r[i]).wf(),
    {
        let sx = self.start.x;
        let sy = self.start.y;
        let sz = self.start.z;
        let ex = self.start.x + self.size.x;
        let ey = self.start.y + self.size.y;
        let ez = self.start.z + self.size.z;
        let r = [
            Vec3i { x: sx, y: sy, z: sz },
            Vec3i { x: ex, y: sy, z: sz },
            Vec3i { x: sx, y: ey, z: sz },
            Vec3i { x: ex, y: ey, z: sz },
            Vec3i { x: sx, y: sy, z: ez },
            Vec3i { x: ex, y: sy, z: ez },
            Vec3i { x: sx, y: ey, z: ez },
            Vec3i { x: ex, y: ey, z: ez },
        ];
        assert forall|i: int| 0 <= i < 8 implies r[i] == self.corner_spec(i) && (#[trigger] r[i]).wf() by {
            assert(corner_dx(i) == if i == 1 || i == 3 || i == 5 || i == 7 { 1int } else { 0int });
            assert(corner_dy(i) == if i == 2 || i == 3 || i == 6 || i == 7 { 1int } else { 0int });
            assert(corner_dz(i) == if i == 4 || i == 5 || i == 6 || i == 7 { 1int } else { 0int });
        }
        r
    }

    /// The exact four-way classification of how `self` intersects `other`.
    pub open spec fn intersect_spec(self, other: AABB) -> IntersectType {
        let ax = axis_intersect_spec(
            self.start.x as int, self.spec_end(0), other.start.x as int, other.spec_end(0));
        let ay = axis_intersect_spec(
            self.start.y as int, self.spec_end(1), other.start.y as int, other.spec_end(1));
        let az = axis_intersect_spec(
            self.start.z as int, self.spec_end(2), other.start.z as int, other.spec_end(2));
        if ax == AxisIntersect::DoesNotIntersect || ay == AxisIntersect::DoesNotIntersect
            || az == AxisIntersect::DoesNotIntersect {
            IntersectType::DoesNotIntersect
        } else if ax == AxisIntersect::Contains && ay == AxisIntersect::Contains
            && az == AxisIntersect::Contains {
            IntersectType::Contains
        } else if ax == AxisIntersect::ContainedBy && ay == AxisIntersect::ContainedBy
            && az == AxisIntersect::ContainedBy {
            IntersectType::ContainedBy
        } else {
            IntersectType::Intersects(self.overlap_spec(other))
        }
    }

    /// The common box of two overlapping AABBs.
    pub open spec fn overlap_spec(self, other: AABB) -> AABB {
        let sx = vstd::math::max(self.start.x as int, other.start.x as int);
        let sy = vstd::math::max(self.start.y as int, other.start.y as int);
        let sz = vstd::math::max(self.start.z as int, other.start.z as int);
        let ex = vstd::math::min(self.spec_end(0), other.spec_end(0));
        let ey = vstd::math::min(self.spec_end(1), other.spec_end(1));
        let ez = vstd::math::min(self.spec_end(2), other.spec_end(2));
        AABB {
            start: Vec3i { x: sx as i64, y: sy as i64, z: sz as i64 },
            size: Vec3i { x: (ex - sx) as i64, y: (ey - sy) as i64, z: (ez - sz) as i64 },
        }
    }

    /// Calculate the intersection between two AABBs and return the result.
    pub fn intersect(&self, other: AABB) -> (r: IntersectType)
        requires
            self.wf(),
            other.wf(),
        ensures
            r == self.intersect_spec(other),
    {
        let ax = Self::intersect_axis(
            self.start.x, self.start.x + self.size.x, other.start.x, other.start.x + other.size.x);
        let ay = Self::intersect_axis(
            self.start.y, self.start.y + self.size.y, other.start.y, other.start.y + other.size.y);
        let az = Self::intersect_axis(
            self.start.z, self.start.z + self.size.z, other.start.z, other.start.z + other.size.z);
        if matches!(ax, AxisIntersect::DoesNotIntersect)
            || matches!(ay, AxisIntersect::DoesNotIntersect)
            || matches!(az, AxisIntersect::DoesNotIntersect) {
            IntersectType::DoesNotIntersect
        } else if matches!(ax, AxisIntersect::Contains)
            && matches!(ay, AxisIntersect::Contains)
            && matches!(az, AxisIntersect::Contains) {
            IntersectType::Contains
        } else if matches!(ax, AxisIntersect::ContainedBy)
            && matches!(ay, AxisIntersect::ContainedBy)
            && matches!(az, AxisIntersect::ContainedBy) {
            IntersectType::ContainedBy
        } else {
            let sx = if self.start.x >= other.start.x { self.start.x } else { other.start.x };
            let sy = if self.start.y >= other.start.y { self.start.y } else { other.start.y };
            let sz = if self.start.z >= other.start.z { self.start.z } else { other.start.z };
            let e0x = self.start.x + self.size.x;
            let e0y = self.start.y + self.size.y;
            let e0z = self.start.z + self.size.z;
            let e1x = other.start.x + other.size.x;
            let e1y = other.start.y + other.size.y;
            let e1z = other.start.z + other.size.z;
            let ex = if e0x <= e1x { e0x } else { e1x };
            let ey = if e0y <= e1y { e0y } else { e1y };
            let ez = if e0z <= e1z { e0z } else { e1z };
            IntersectType::Intersects(AABB {
                start: Vec3i { x: sx, y: sy, z: sz },
                size: Vec3i { x: ex - sx, y: ey - sy, z: ez - sz },
            })
        }
    }

    fn intersect_axis(s0: i64, e0: i64, s1: i64, e1: i64) -> (r: AxisIntersect)
        requires
            coord_ok(s0 as int) && coord_ok(e0 as int) && coord_ok(s1 as int) && coord_ok(e1 as int),
        ensures
            r == axis_intersect_spec(s0 as int, e0 as int, s1 as int, e1 as int),
    {
        if s0 >= e1 || e0 <= s1 {
            AxisIntersect::DoesNotIntersect
        } else if s0 <= s1 && e0 >= e1 {
            AxisIntersect::Contains
        } else if (s0 >= s1 && e0 < e1) || (s0 > s1 && e0 <= e1) {
            AxisIntersect::ContainedBy
        } else {
            AxisIntersect::Intersects(
                if s0 >= s1 { s0 } else { s1 },
                if e0 <= e1 { e0 } else { e1 },
            )
        }
    }

    /// Calculate the intersection between two AABBs and return the
    /// resulting intersection AABB, if it exists.
    pub fn get_intersect_aabb(&self, other: AABB) -> (r: Option<AABB>)
        requires
            self.wf(),
            other.wf(),
        ensures
            r == match self.intersect_spec(other) {
                IntersectType::DoesNotIntersect => None::<AABB>,
                IntersectType::Intersects(new_aabb) => Some(new_aabb),
                IntersectType::ContainedBy => Some(*self),
                IntersectType::Contains => Some(other),
            },
    {
        match self.intersect(other) {
            IntersectType::DoesNotIntersect => None,
            IntersectType::Intersects(new_aabb) => Some(new_aabb),
            IntersectType::ContainedBy => Some(*self),
            IntersectType::Contains => Some(other),
        }
    }

    /// The AABB of octant child `index`, in Z-order; the child size is the
    /// parent size halved, rounding toward negative infinity.
    pub open spec fn octree_child_spec(self, index: int) -> AABB {
        let hx = self.size.x as int / 2;
        let hy = self.size.y as int / 2;
        let hz = self.size.z as int / 2;
        AABB {
            start: Vec3i {
                x: (self.start.x + hx * corner_dx(index)) as i64,
                y: (self.start.y + hy * corner_dy(index)) as i64,
                z: (self.start.z + hz * corner_dz(index)) as i64,
            },
            size: Vec3i { x: hx as i64, y: hy as i64, z: hz as i64 },
        }
    }

    /// Calculate the AABB of octant child `index`.
    pub fn octree_child(&self, index: u8) -> (r: AABB)
        requires
            self.wf(),
            index < 8,
        ensures
            r == self.octree_child_spec(index as int),
            r.wf(),
    {
        let hx = self.size.x / 2;
        let hy = self.size.y / 2;
        let hz = self.size.z / 2;
        let dx = index as i64 % 2;
        let dy = (index as i64 / 2) % 2;
        let dz = (index as i64 / 4) % 2;
        assert(dx == 0 || dx == 1);
        assert(dy == 0 || dy == 1);
        assert(dz == 0 || dz == 1);
        AABB {
            start: Vec3i {
                x: self.start.x + hx * dx,
                y: self.start.y + hy * dy,
                z: self.start.z + hz * dz,
            },
            size: Vec3i { x: hx, y: hy, z: hz },
        }
    }

    /// Subdivide the AABB into 8 equally-sized AABBs, in Z-order.
    pub fn octree_subdivide(&self) -> (r: [AABB; 8])
        requires self.wf(),
        ensures
            forall|i: int| 0 <= i < 8 ==> r[i] == self.octree_child_spec(i),
            forall|i: int| 0 <= i < 8 ==> (#[trigger] r[i]).wf(),
    {
        let r = [
            self.octree_child(0),
            self.octree_child(1),
            self.octree_child(2),
            self.octree_child(3),
            self.octree_child(4),
            self.octree_child(5),
            self.octree_child(6),
            self.octree_child(7),
        ];
        r
    }
}

/// Whether `inner` lies entirely within `outer` on every axis.
pub open spec fn box_within(inner: AABB, outer: AABB) -> bool {
    &&& outer.start.x <= inner.start.x && inner.spec_end(0) <= outer.spec_end(0)
    &&& outer.start.y <= inner.start.y && inner.spec_end(1) <= outer.spec_end(1)
    &&& outer.start.z <= inner.start.z && inner.spec_end(2) <= outer.spec_end(2)
}

/// Whether `p` lies in the half-open extent of `b` (start corners
/// included, end corners excluded).
pub open spec fn half_open_contains(b: AABB, p: Vec3i) -> bool {
    &&& b.start.x <= p.x < b.start.x + b.size.x
    &&& b.start.y <= p.y < b.start.y + b.size.y
    &&& b.start.z <= p.z < b.start.z + b.size.z
}

/// For `0 <= i < 8`, the Z-order corner bits reassemble to `i`.
proof fn lemma_corner_bits_identity(i: int)
    requires 0 <= i < 8,
    ensures i == corner_dx(i) + 2 * corner_dy(i) + 4 * corner_dz(i),
{
}

/// A product with a bit is either zero or the other factor.
proof fn lemma_mul_bit(h: int, b: int)
    requires 0 <= b <= 1,
    ensures h * b == if b == 0 { 0int } else { h },
{
    assert(h * b == if b == 0 { 0int } else { h }) by (nonlinear_arith)
        requires 0 <= b <= 1,
    ;
}

/// Subdivision conserves volume: with even sizes the 8 boxes from
/// `octree_subdivide` exactly tile the parent.
///
/// Law: all 8 children have the same size, half the parent on each axis;
/// their volumes sum to the parent volume; and each point of the parent's
/// half-open extent lies in the half-open extent of exactly one child.
pub proof fn lemma_subdivide_tiles(a: AABB)
    requires
        a.wf(),
        a.size.x % 2 == 0 && a.size.y % 2 == 0 && a.size.z % 2 == 0,
    ensures
        forall|i: int| 0 <= i < 8 ==> (#[trigger] a.octree_child_spec(i)).size
            == (Vec3i { x: (a.size.x / 2) as i64, y: (a.size.y / 2) as i64, z: (a.size.z / 2) as i64 }),
        8 * ((a.size.x as int / 2) * (a.size.y as int / 2) * (a.size.z as int / 2))
            == a.size.x as int * a.size.y as int * a.size.z as int,
        forall|p: Vec3i| #[trigger] half_open_contains(a, p)
            <==> exists|i: int| 0 <= i < 8 && #[trigger] half_open_contains(a.octree_child_spec(i), p),
        forall|p: Vec3i, i: int, j: int|
            0 <= i < 8 && 0 <= j < 8
                && #[trigger] half_open_contains(a.octree_child_spec(i), p)
                && #[trigger] half_open_contains(a.octree_child_spec(j), p)
            ==> i == j,
{
    let hx = a.size.x as int / 2;
    let hy = a.size.y as int / 2;
    let hz = a.size.z as int / 2;
    assert(a.size.x == 2 * hx && a.size.y == 2 * hy && a.size.z == 2 * hz);
    assert(8 * (hx * hy * hz) == (2 * hx) * (2 * hy) * (2 * hz)) by (nonlinear_arith);

    assert forall|p: Vec3i| #[trigger] half_open_contains(a, p) implies
        exists|i: int| 0 <= i < 8 && #[trigger] half_open_contains(a.octree_child_spec(i), p) by {
        let ix: int = if p.x < a.start.x + hx { 0 } else { 1 };
        let iy: int = if p.y < a.start.y + hy { 0 } else { 1 };
        let iz: int = if p.z < a.start.z + hz { 0 } else { 1 };
        let i = ix + 2 * iy + 4 * iz;
        assert(corner_dx(i) == ix && corner_dy(i) == iy && corner_dz(i) == iz);
        lemma_mul_bit(hx, corner_dx(i));
        lemma_mul_bit(hy, corner_dy(i));
        lemma_mul_bit(hz, corner_dz(i));
        assert(half_open_contains(a.octree_child_spec(i), p));
    }

    assert forall|p: Vec3i, i: int, j: int|
        0 <= i < 8 && 0 <= j < 8
            && #[trigger] half_open_contains(a.octree_child_spec(i), p)
            && #[trigger] half_open_contains(a.octree_child_spec(j), p)
        implies i == j by {
        lemma_mul_bit(hx, corner_dx(i));
        lemma_mul_bit(hy, corner_dy(i));
        lemma_mul_bit(hz, corner_dz(i));
        lemma_mul_bit(hx, corner_dx(j));
        lemma_mul_bit(hy, corner_dy(j));
        lemma_mul_bit(hz, corner_dz(j));
        assert(corner_dx(i) == corner_dx(j));
        assert(corner_dy(i) == corner_dy(j));
        assert(corner_dz(i) == corner_dz(j));
        lemma_corner_bits_identity(i);
        lemma_corner_bits_identity(j);
    }

    assert forall|p: Vec3i|
        (exists|i: int| 0 <= i < 8 && #[trigger] half_open_contains(a.octree_child_spec(i), p))
        implies half_open_contains(a, p) by {
        let i = choose|i: int| 0 <= i < 8
            && #[trigger] half_open_contains(a.octree_child_spec(i), p);
        lemma_mul_bit(hx, corner_dx(i));
        lemma_mul_bit(hy, corner_dy(i));
        lemma_mul_bit(hz, corner_dz(i));
        assert(half_open_contains(a, p));
    }
}

/// The overlap box carried by an `Intersects` result is well-formed.
pub proof fn lemma_overlap_wf(a: AABB, b: AABB)
    requires
        a.wf(),
        b.wf(),
    ensures
        a.intersect_spec(b) is Intersects ==> a.intersect_spec(b)->Intersects_0.wf(),
{
}

/// A non-degenerate box contains itself.
///
/// Law: `a.intersect(a) == Contains` for any box with positive sizes.
pub proof fn lemma_intersect_self(a: AABB)
    requires
        a.wf(),
        a.size.x > 0 && a.size.y > 0 && a.size.z > 0,
    ensures
        a.intersect_spec(a) == IntersectType::Contains,
{
}

/// Intersection duality: `a` strictly contains `b` exactly when `b`
/// reports `ContainedBy` against `a`.
///
/// Law: `b.intersect(a) == ContainedBy` implies `a.intersect(b) == Contains`,
/// and the converse holds whenever no axis interval of the two boxes is
/// identical (for equal boxes both directions report `Contains`).
pub proof fn lemma_contains_dual(a: AABB, b: AABB)
    requires
        a.wf(),
        b.wf(),
    ensures
        b.intersect_spec(a) == IntersectType::ContainedBy ==> a.intersect_spec(b) == IntersectType::Contains,
        (a.intersect_spec(b) == IntersectType::Contains
            && (forall|axis: int| 0 <= axis < 3 ==>
                !(a.start.spec_axis(axis) == b.start.spec_axis(axis)
                    && a.spec_end(axis) == b.spec_end(axis))))
            ==> b.intersect_spec(a) == IntersectType::ContainedBy,
{
    if a.intersect_spec(b) == IntersectType::Contains {
        assert(b.start.spec_axis(0) == b.start.x as int);
        assert(b.start.spec_axis(1) == b.start.y as int);
        assert(b.start.spec_axis(2) == b.start.z as int);
    }
}

} // verus!

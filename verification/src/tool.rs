//! Sculpting tools: density functions with conservative bounding boxes.
//!
//! Tools are expressed directly in fixed-point world space: a sphere
//! carries its center and radius. General affine composition (rotation,
//! nonuniform scaling) has no exact fixed-point form and is left to
//! float tooling outside the library.

use vstd::prelude::*;
use crate::aabb::{AABB, Vec3i, coord_ok};
use crate::fixed::{UNIT, in_unit_range, clamp_unit, clamp_unit_spec, floor_div, isqrt};

verus! {

/// Bound on tool centers and radii, chosen so that every derived box and
/// distance stays in coordinate range.
pub const TOOL_LIMIT: i64 = 0x2000_0000_0000;

/// The greatest integer whose square does not exceed `n`.
pub open spec fn sqrt_floor(n: int) -> int {
    choose|r: int| r >= 0 && #[trigger] (r * r) <= n && n < (r + 1) * (r + 1)
}

/// The square root floor is unique, so any witness equals `sqrt_floor`.
pub proof fn lemma_sqrt_floor_unique(n: int, r: int)
    requires
        r >= 0,
        r * r <= n,
        n < (r + 1) * (r + 1),
    ensures sqrt_floor(n) == r,
{
    assert(r >= 0 && #[trigger] (r * r) <= n && n < (r + 1) * (r + 1));
    let s = sqrt_floor(n);
    assert(s >= 0 && s * s <= n && n < (s + 1) * (s + 1));
    assert(s == r) by (nonlinear_arith)
        requires
            s >= 0, r >= 0, s * s <= n, n < (s + 1) * (s + 1),
            r * r <= n, n < (r + 1) * (r + 1),
    ;
}

/// A ToolFunc represents a function that can return a density value for
/// a given point: positive inside the tool's surface, negative outside.
pub trait ToolFunc: Sized {
    /// Validity of the tool's own parameters.
    spec fn wf(&self) -> bool;

    spec fn value_spec(&self, pos: Vec3i, scale: i64) -> int;

    spec fn spec_tool_aabb(&self) -> AABB;

    spec fn spec_aoe_aabb(&self) -> AABB;

    spec fn spec_is_concave(&self) -> bool;

    /// Get the density contribution of the tool at `pos`, where `scale`
    /// is the edge length of the cell being evaluated.
    fn value(&self, pos: Vec3i, scale: i64) -> (r: i64)
        requires
            self.wf(),
            pos.wf(),
            scale >= 1,
        ensures
            r == self.value_spec(pos, scale),
            in_unit_range(r as int);

    /// A conservative bound on the region where `value` may exceed 0,
    /// the region where the tool can add material.
    fn tool_aabb(&self) -> (r: AABB)
        requires self.wf(),
        ensures
            r == self.spec_tool_aabb(),
            r.wf();

    /// A conservative bound on the region where `value` may exceed the
    /// lowest density, the region where the tool can affect material;
    /// always contains the tool AABB.
    fn aoe_aabb(&self) -> (r: AABB)
        requires self.wf(),
        ensures
            r == self.spec_aoe_aabb(),
            r.wf(),
            crate::aabb::box_within(self.spec_tool_aabb(), r);

    /// Whether the tool's shape is concave; concave tools force
    /// subdivision everywhere their area of effect reaches.
    fn is_concave(&self) -> (r: bool)
        requires self.wf(),
        ensures r == self.spec_is_concave();

    /// Whether the tool's shape is convex.
    fn is_convex(&self) -> (r: bool)
        requires self.wf(),
        ensures r == !self.spec_is_concave(),
    {
        !self.is_concave()
    }
}

/// A sphere of a given center and radius.
///
/// Density is the clamped distance to the surface, normalized by the
/// cell scale: `clamp((radius - |pos - center|) / scale)`.
#[derive(Clone, Copy, Debug, PartialEq, Eq, Structural)]
pub struct Sphere {
    pub center: Vec3i,
    pub radius: i64,
}

impl Sphere {
    pub fn new(center: Vec3i, radius: i64) -> (r: Sphere)
        ensures r == (Sphere { center, radius }),
    {
        Sphere { center, radius }
    }

    /// The same sphere moved by `offset`.
    pub fn translated(&self, offset: Vec3i) -> (r: Sphere)
        requires
            self.wf(),
            offset.wf(),
            -(TOOL_LIMIT as int) <= self.center.x + offset.x <= TOOL_LIMIT as int,
            -(TOOL_LIMIT as int) <= self.center.y + offset.y <= TOOL_LIMIT as int,
            -(TOOL_LIMIT as int) <= self.center.z + offset.z <= TOOL_LIMIT as int,
        ensures
            r.radius == self.radius,
            r.center.x == self.center.x + offset.x,
            r.center.y == self.center.y + offset.y,
            r.center.z == self.center.z + offset.z,
            r.wf(),
    {
        Sphere {
            center: Vec3i {
                x: self.center.x + offset.x,
                y: self.center.y + offset.y,
                z: self.center.z + offset.z,
            },
            radius: self.radius,
        }
    }

    /// The squared distance from `pos` to the sphere's center.
    pub open spec fn dist_sq(self, pos: Vec3i) -> int {
        let dx = pos.x - self.center.x;
        let dy = pos.y - self.center.y;
        let dz = pos.z - self.center.z;
        dx * dx + dy * dy + dz * dz
    }
}

impl ToolFunc for Sphere {
    open spec fn wf(&self) -> bool {
        &&& 0 <= self.radius <= TOOL_LIMIT
        &&& -(TOOL_LIMIT as int) <= self.center.x <= TOOL_LIMIT as int
        &&& -(TOOL_LIMIT as int) <= self.center.y <= TOOL_LIMIT as int
        &&& -(TOOL_LIMIT as int) <= self.center.z <= TOOL_LIMIT as int
    }

    open spec fn value_spec(&self, pos: Vec3i, scale: i64) -> int {
        clamp_unit_spec((self.radius - sqrt_floor(self.dist_sq(pos))) * UNIT / (scale as int))
    }

    open spec fn spec_tool_aabb(&self) -> AABB {
        AABB {
            start: Vec3i {
                x: (self.center.x - self.radius) as i64,
                y: (self.center.y - self.radius) as i64,
                z: (self.center.z - self.radius) as i64,
            },
            size: Vec3i { x: (2 * self.radius) as i64, y: (2 * self.radius) as i64, z: (2 * self.radius) as i64 },
        }
    }

    open spec fn spec_aoe_aabb(&self) -> AABB {
        AABB {
            start: Vec3i {
                x: (self.center.x - self.radius - UNIT) as i64,
                y: (self.center.y - self.radius - UNIT) as i64,
                z: (self.center.z - self.radius - UNIT) as i64,
            },
            size: Vec3i {
                x: (2 * (self.radius + UNIT)) as i64,
                y: (2 * (self.radius + UNIT)) as i64,
                z: (2 * (self.radius + UNIT)) as i64,
            },
        }
    }

    open spec fn spec_is_concave(&self) -> bool {
        false
    }

    fn value(&self, pos: Vec3i, scale: i64) -> (r: i64) {
        let dx = (pos.x as i128) - (self.center.x as i128);
        let dy = (pos.y as i128) - (self.center.y as i128);
        let dz = (pos.z as i128) - (self.center.z as i128);
        proof {
            assert(dx * dx >= 0 && dx * dx <= 0x40_0000_0000_0000_0000_0000_0000
                && dy * dy >= 0 && dy * dy <= 0x40_0000_0000_0000_0000_0000_0000
                && dz * dz >= 0 && dz * dz <= 0x40_0000_0000_0000_0000_0000_0000)
                by (nonlinear_arith)
                requires
                    -0x8_0000_0000_0000 <= dx <= 0x8_0000_0000_0000,
                    -0x8_0000_0000_0000 <= dy <= 0x8_0000_0000_0000,
                    -0x8_0000_0000_0000 <= dz <= 0x8_0000_0000_0000,
            ;
        }
        let sq: i128 = dx * dx + dy * dy + dz * dz;
        let dist = isqrt(sq as u128);
        proof {
            lemma_sqrt_floor_unique(sq as int, dist as int);
            assert(dist * dist <= sq < 0x100_0000_0000_0000_0000_0000_0000);
            assert(dist < 0x10_0000_0000_0000) by (nonlinear_arith)
                requires
                    dist >= 0,
                    dist * dist < 0x100_0000_0000_0000_0000_0000_0000u128,
            ;
        }
        let num: i128 = ((self.radius as i128) - (dist as i128)) * (UNIT as i128);
        let q = floor_div(num, scale as i128);
        clamp_unit(q)
    }

    fn tool_aabb(&self) -> (r: AABB) {
        AABB {
            start: Vec3i {
                x: self.center.x - self.radius,
                y: self.center.y - self.radius,
                z: self.center.z - self.radius,
            },
            size: Vec3i { x: 2 * self.radius, y: 2 * self.radius, z: 2 * self.radius },
        }
    }

    fn aoe_aabb(&self) -> (r: AABB) {
        let reach = self.radius + UNIT;
        AABB {
            start: Vec3i {
                x: self.center.x - reach,
                y: self.center.y - reach,
                z: self.center.z - reach,
            },
            size: Vec3i { x: 2 * reach, y: 2 * reach, z: 2 * reach },
        }
    }

    fn is_concave(&self) -> (r: bool) {
        false
    }
}

} // verus!

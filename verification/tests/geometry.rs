use rusty_ground::aabb::{AABB, Vec3i};
use rusty_ground::aabb::IntersectType::{Contains, ContainedBy, DoesNotIntersect, Intersects};
use rusty_ground::fixed::UNIT;
use rusty_ground::tool::{Sphere, ToolFunc};
use rusty_ground::utils::{LineDir, line_vertices};

fn fx(v: f64) -> i64 {
    (v * UNIT as f64).round() as i64
}

fn v3(x: f64, y: f64, z: f64) -> Vec3i {
    Vec3i { x: fx(x), y: fx(y), z: fx(z) }
}

#[test]
fn intersect_test() {
    let aabb_1 = AABB { start: v3(1.0, 2.0, 3.0), size: v3(4.0, 5.0, 6.0) };
    let aabb_2 = AABB { start: v3(3.0, 4.0, 5.0), size: v3(2.0, 1.0, 0.5) };
    let aabb_3 = AABB { start: v3(0.0, 0.0, 0.0), size: v3(2.0, 2.0, 2.0) };
    let aabb_4 = AABB { start: v3(4.0, 6.0, 8.0), size: v3(10.0, 15.0, 7.0) };

    assert_eq!(aabb_1.intersect(aabb_2), Contains);
    assert_eq!(aabb_2.intersect(aabb_1), ContainedBy);

    assert_eq!(aabb_1.intersect(aabb_1), Contains);

    assert_eq!(aabb_1.intersect(aabb_3), DoesNotIntersect);
    assert_eq!(aabb_3.intersect(aabb_1), DoesNotIntersect);

    assert_eq!(aabb_2.intersect(aabb_3), DoesNotIntersect);
    assert_eq!(aabb_3.intersect(aabb_2), DoesNotIntersect);

    let overlap = AABB { start: v3(4.0, 6.0, 8.0), size: v3(1.0, 1.0, 1.0) };
    assert_eq!(aabb_1.intersect(aabb_4), Intersects(overlap));
    assert_eq!(aabb_4.intersect(aabb_1), Intersects(overlap));
}

#[test]
fn octree_subdivide_test() {
    let aabb = AABB::unit_cube();

    let subdiv = aabb.octree_subdivide();
    assert_eq!(subdiv[5], AABB { start: v3(0.5, 0.0, 0.5), size: v3(0.5, 0.5, 0.5) });
    let subdiv = subdiv[5].octree_subdivide();
    assert_eq!(subdiv[6], AABB { start: v3(0.5, 0.25, 0.75), size: v3(0.25, 0.25, 0.25) });
    let subdiv = subdiv[6].octree_subdivide();
    assert_eq!(
        subdiv[3],
        AABB { start: v3(0.625, 0.375, 0.75), size: v3(0.125, 0.125, 0.125) }
    );
}

#[test]
fn subdivision_tiles_parent() {
    // Subdivision volume conservation on concrete numbers: the 8 children
    // all have half the parent size and their volumes sum to the parent's.
    let aabb = AABB { start: v3(1.0, 2.0, 3.0), size: v3(4.0, 6.0, 8.0) };
    let children = aabb.octree_subdivide();
    let mut volume_sum: i128 = 0;
    for c in children.iter() {
        assert_eq!(c.size, Vec3i { x: fx(2.0), y: fx(3.0), z: fx(4.0) });
        volume_sum += c.size.x as i128 * c.size.y as i128 * c.size.z as i128;
    }
    let parent_volume = aabb.size.x as i128 * aabb.size.y as i128 * aabb.size.z as i128;
    assert_eq!(volume_sum, parent_volume);
    // Distinct children never share interior points: spot-check corners.
    for i in 0..8 {
        for j in 0..8 {
            if i != j {
                assert_ne!(children[i].start, children[j].start);
            }
        }
    }
}

#[test]
fn containing_and_contains() {
    let points = vec![v3(1.0, 1.0, 1.0), v3(-1.0, 4.0, 0.0), v3(2.0, 0.0, 3.0)];
    let aabb = AABB::containing(&points);
    for p in points.iter() {
        assert!(aabb.contains(*p));
    }
    assert_eq!(aabb.start, v3(-1.0, 0.0, 0.0));
    assert!(!aabb.contains(v3(5.0, 5.0, 5.0)));
}

#[test]
fn from_radius_and_extents() {
    let b = AABB::from_radius(v3(0.0, 0.0, 0.0), UNIT);
    assert_eq!(b.start, v3(-1.0, -1.0, -1.0));
    assert_eq!(b.size, v3(2.0, 2.0, 2.0));

    let e = AABB::from_extents(v3(1.0, 1.0, 1.0), v3(2.0, 2.0, 2.0));
    assert_eq!(e.start, v3(0.0, 0.0, 0.0));
    assert_eq!(e.size, v3(2.0, 2.0, 2.0));
}

#[test]
fn tool_aabb_test() {
    // A sphere of radius 5 centered at (3,3,3) can add material exactly
    // within the box from -2 to 8 on each axis.
    let tool = Sphere::new(v3(3.0, 3.0, 3.0), fx(5.0));
    assert_eq!(
        tool.tool_aabb(),
        AABB { start: v3(-2.0, -2.0, -2.0), size: v3(10.0, 10.0, 10.0) }
    );
    // The area of effect reaches one more world unit out.
    assert_eq!(
        tool.aoe_aabb(),
        AABB { start: v3(-3.0, -3.0, -3.0), size: v3(12.0, 12.0, 12.0) }
    );
    assert!(tool.is_convex());
    assert!(!tool.is_concave());
}

#[test]
fn sphere_value_exact() {
    // value = clamp((radius - |pos - center|) / scale), in fixed point.
    let tool = Sphere::new(v3(0.0, 0.0, 0.0), fx(1.0));
    // At the center, one full unit inside.
    assert_eq!(tool.value(v3(0.0, 0.0, 0.0), UNIT), UNIT);
    // On the surface, exactly zero.
    assert_eq!(tool.value(v3(1.0, 0.0, 0.0), UNIT), 0);
    // Far outside, clamped to the lowest density.
    assert_eq!(tool.value(v3(5.0, 0.0, 0.0), UNIT), -UNIT);
    // Halfway out with a finer cell scale: twice the distance in cell units.
    assert_eq!(tool.value(v3(1.5, 0.0, 0.0), UNIT / 2), -UNIT);
    assert_eq!(tool.value(v3(0.75, 0.0, 0.0), UNIT / 2), UNIT / 2);
}

#[test]
fn line_vertices_beam() {
    let verts = line_vertices(v3(1.0, 1.0, 1.0), fx(3.0), fx(0.5), LineDir::Right);
    assert_eq!(verts.len(), 36);
    // The beam spans from pos - scale/2 to pos + scale/2 + length on x.
    let min_x = verts.iter().map(|v| v.x).min().unwrap();
    let max_x = verts.iter().map(|v| v.x).max().unwrap();
    assert_eq!(min_x, fx(0.75));
    assert_eq!(max_x, fx(1.25) + fx(3.0));
    // The cross-section stays centered on the other axes.
    let min_y = verts.iter().map(|v| v.y).min().unwrap();
    let max_y = verts.iter().map(|v| v.y).max().unwrap();
    assert_eq!(min_y, fx(0.75));
    assert_eq!(max_y, fx(1.25));
}

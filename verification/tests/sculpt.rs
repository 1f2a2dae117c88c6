use rusty_ground::aabb::Vec3i;
use rusty_ground::action::Action;
use rusty_ground::fixed::UNIT;
use rusty_ground::marching_cubes::MarchTables;
use rusty_ground::naive_octree::{NaiveOctree, NaiveOctreeCell};
use rusty_ground::octant_map::OctantMap;
use rusty_ground::octant_key::OctantKey;
use rusty_ground::tool::Sphere;
use rusty_ground::utils::subdivide_cell;

fn fx(v: f64) -> i64 {
    (v * UNIT as f64).round() as i64
}

fn v3(x: f64, y: f64, z: f64) -> Vec3i {
    Vec3i { x: fx(x), y: fx(y), z: fx(z) }
}

#[test]
fn apply_value_exact() {
    let mut p: i64 = -UNIT;
    Action::Place.apply_value(&mut p, 100);
    assert_eq!(p, 100);
    Action::Place.apply_value(&mut p, 50);
    assert_eq!(p, 100);
    Action::Remove.apply_value(&mut p, 30);
    assert_eq!(p, -30);
    Action::Remove.apply_value(&mut p, -UNIT);
    assert_eq!(p, -30);
}

#[test]
fn place_is_idempotent() {
    // Idempotence of Place: applying the same value twice equals once.
    for start in [-UNIT, -5, 0, 7, UNIT] {
        for val in [-UNIT, -1, 0, 3, UNIT] {
            let mut once = start;
            Action::Place.apply_value(&mut once, val);
            let mut twice = once;
            Action::Place.apply_value(&mut twice, val);
            assert_eq!(once, twice);
        }
    }
}

#[test]
fn remove_zero_is_noop_on_empty_space() {
    // Removing nothing leaves non-positive densities unchanged; a
    // positive density is truncated to zero by min(point, -0).
    let mut p: i64 = -777;
    Action::Remove.apply_value(&mut p, 0);
    assert_eq!(p, -777);
    let mut q: i64 = 777;
    Action::Remove.apply_value(&mut q, 0);
    assert_eq!(q, 0);
}

#[test]
fn subdivide_uniform_cell() {
    // Corner interpolation consistency: a uniform cell subdivides into
    // 8 uniform children carrying the same value.
    for v in [-UNIT, -12345, 0, 4242, UNIT] {
        let children = subdivide_cell(&[v; 8]);
        for child in children.iter() {
            for corner in child.iter() {
                assert_eq!(*corner, v);
            }
        }
    }
}

#[test]
fn subdivide_interpolates_midpoints() {
    // A gradient along x: corners 0/2/4/6 at 0, corners 1/3/5/7 at 2^20.
    let cell = [0, UNIT, 0, UNIT, 0, UNIT, 0, UNIT];
    let children = subdivide_cell(&cell);
    // Child 0's corner 1 sits at the x midpoint of the lower edge.
    assert_eq!(children[0][0], 0);
    assert_eq!(children[0][1], UNIT / 2);
    assert_eq!(children[1][0], UNIT / 2);
    assert_eq!(children[1][1], UNIT);
}

#[test]
fn cell_mesh_test() {
    // A sphere of radius 0.3 placed at the origin of a unit-cube cell at
    // max depth 0 leaves a single leaf whose corner densities are
    // clamp(0.3 - distance), and marching it emits 0 to 5 triangles.
    let r = fx(0.3);
    let mut terrain = NaiveOctree::new(UNIT);
    let tool = Sphere::new(v3(0.0, 0.0, 0.0), r);
    terrain.apply_tool(&tool, Action::Place, 0);

    assert!(terrain.root.children.is_none());
    let vals = terrain.root.values;
    // Corner 0 is the sphere's center: one radius inside.
    assert_eq!(vals[0], r);
    // Corners one unit along an axis: distance 2^20 exactly.
    assert_eq!(vals[1], r - UNIT);
    assert_eq!(vals[2], r - UNIT);
    assert_eq!(vals[4], r - UNIT);
    // Corners across a face diagonal or the body diagonal clamp to -1.
    assert_eq!(vals[3], -UNIT);
    assert_eq!(vals[5], -UNIT);
    assert_eq!(vals[6], -UNIT);
    assert_eq!(vals[7], -UNIT);

    let mesh = terrain.generate_mesh(0);
    assert!(mesh.faces.len() <= 5);
    // Only corner 0 is inside: configuration 1 emits one triangle.
    assert_eq!(mesh.faces.len(), 1);
}

#[test]
fn place_then_generate_and_index() {
    let mut terrain = NaiveOctree::new(100 * UNIT);
    let tool = Sphere::new(v3(50.0, 50.0, 50.0), fx(30.0));
    terrain.apply_tool(&tool, Action::Place, 3);
    assert!(terrain.root.children.is_some());

    let tables = MarchTables::new();
    let mesh = terrain.generate_mesh_with(3, &tables);
    assert!(mesh.faces.len() > 0);

    let indexed = mesh.index();
    assert_eq!(indexed.indices.len(), 3 * mesh.faces.len());
    for idx in indexed.indices.iter() {
        assert!((*idx as usize) < indexed.vertices.len());
    }
    // Vertices are deduplicated.
    for i in 0..indexed.vertices.len() {
        for j in 0..i {
            assert_ne!(indexed.vertices[i], indexed.vertices[j]);
        }
    }
    // Adjacent cells share vertices, so indexing must shrink the buffer.
    assert!(indexed.vertices.len() < 3 * mesh.faces.len());
}

#[test]
fn remove_collapses_region() {
    // Collapse/subdivide inverse: placing a sphere subdivides the tree;
    // removing a larger sphere over the same region empties it and the
    // pass collapses everything back to a single leaf.
    let mut terrain = NaiveOctree::new(100 * UNIT);
    let place = Sphere::new(v3(50.0, 50.0, 50.0), fx(20.0));
    terrain.apply_tool(&place, Action::Place, 3);
    assert!(terrain.root.children.is_some());

    let remove = Sphere::new(v3(50.0, 50.0, 50.0), fx(95.0));
    terrain.apply_tool(&remove, Action::Remove, 3);
    assert!(terrain.root.children.is_none());
    for v in terrain.root.values.iter() {
        assert!(*v < 0);
    }
}

#[test]
fn place_twice_same_tool() {
    // Idempotence of Place at the terrain level: a second identical
    // application changes neither the densities nor the mesh.
    let tool = Sphere::new(v3(50.0, 50.0, 50.0), fx(30.0));

    let mut once = NaiveOctree::new(100 * UNIT);
    once.apply_tool(&tool, Action::Place, 3);

    let mut twice = NaiveOctree::new(100 * UNIT);
    twice.apply_tool(&tool, Action::Place, 3);
    twice.apply_tool(&tool, Action::Place, 3);

    assert_eq!(once.root.values, twice.root.values);
    let tables = MarchTables::new();
    let m1 = once.generate_mesh_with(5, &tables);
    let m2 = twice.generate_mesh_with(5, &tables);
    assert_eq!(m1.faces, m2.faces);
}

#[test]
fn octant_map_test_recurse() {
    // The flat-map strategy: sculpt a small sphere at the origin corner
    // of the unit cube and check the leaf bookkeeping.
    let mut map = OctantMap::new();
    let tool = Sphere::new(v3(0.0, 0.0, 0.0), fx(0.3291));
    map.apply_tool_recurse(&tool, Action::Place, 4);

    assert!(map.octants.contains_key(&0));
    assert!(map.contains_cell(OctantKey::root()));
    assert!(map.has_children(OctantKey::root()));

    // Every leaf is an existing cell without children.
    for leaf in map.leaves.iter() {
        assert!(map.octants.contains_key(leaf));
        let key = OctantKey(*leaf);
        if key.depth() < 19 {
            assert!(!map.has_children(key));
        }
    }

    let tables = MarchTables::new();
    let mesh = map.generate_mesh(4, &tables);
    assert!(mesh.faces.len() > 0);
    let indexed = mesh.index();
    for idx in indexed.indices.iter() {
        assert!((*idx as usize) < indexed.vertices.len());
    }
}

#[test]
fn octant_map_matches_tree_strategy() {
    // The two storage strategies sculpt the same densities at the root.
    let tool = Sphere::new(v3(0.25, 0.25, 0.25), fx(0.2));

    let mut map = OctantMap::new();
    map.apply_tool_recurse(&tool, Action::Place, 2);

    let mut tree = NaiveOctree::new(UNIT);
    tree.apply_tool(&tool, Action::Place, 2);

    let root_vals = *map.octants.get(&0).unwrap();
    assert_eq!(root_vals, tree.root.values);
}

#[test]
fn new_terrain_is_empty() {
    let terrain = NaiveOctree::new(UNIT);
    assert_eq!(terrain.root.values, [-UNIT; 8]);
    assert!(terrain.root.children.is_none());
    let cell = NaiveOctreeCell::new_leaf();
    assert_eq!(cell.values, [-UNIT; 8]);

    let mesh = terrain.generate_mesh(2);
    assert_eq!(mesh.faces.len(), 0);
}

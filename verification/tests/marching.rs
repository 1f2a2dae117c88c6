use rusty_ground::aabb::{AABB, Vec3i};
use rusty_ground::fixed::UNIT;
use rusty_ground::marching_cubes::{MarchTables, march_cube, vert_interp};

fn fx(v: f64) -> i64 {
    (v * UNIT as f64).round() as i64
}

fn v3(x: f64, y: f64, z: f64) -> Vec3i {
    Vec3i { x: fx(x), y: fx(y), z: fx(z) }
}

#[test]
fn tables_survive_validation() {
    // The sanitizing constructor keeps the classic tables in full: spot
    // values from both tables are intact after validation.
    let t = MarchTables::new();
    assert_eq!(t.edge.len(), 256);
    assert_eq!(t.tri.len(), 256);
    assert_eq!(t.edge[0], 0x0);
    assert_eq!(t.edge[1], 0x103);
    assert_eq!(t.edge[2], 0x809);
    assert_eq!(t.edge[255], 0x0);
    assert_eq!(&t.tri[0][..], [-1; 15]);
    assert_eq!(&t.tri[1][..3], [1, 8, 0]);
    assert_eq!(&t.tri[3][..6], [1, 11, 3, 8, 11, 1]);
    assert_eq!(&t.tri[255][..], [-1; 15]);
}

#[test]
fn closure_of_all_configurations() {
    // Marching cubes closure: for each of the 256 corner-sign
    // configurations, the emitted triangle count matches the triangle
    // table row, and every referenced edge is flagged in the edge table.
    let t = MarchTables::new();
    let corners = AABB::unit_cube().calculate_corners();
    for config in 0..256usize {
        let mut values = [0i64; 8];
        for i in 0..8 {
            values[i] = if (config >> i) & 1 == 1 { UNIT / 2 } else { -(UNIT / 2) };
        }
        let tris = march_cube(&corners, &values, &t);

        let row = &t.tri[config];
        let mut expected: usize = 0;
        while expected < 15 && row[expected] != -1 {
            expected += 1;
        }
        assert_eq!(expected % 3, 0, "configuration {}", config);
        assert_eq!(3 * tris.len(), expected, "configuration {}", config);
        for j in 0..expected {
            let e = row[j];
            assert!(0 <= e && e < 12);
            assert_eq!((t.edge[config] >> e) & 1, 1, "configuration {}", config);
        }
    }
}

#[test]
fn march_single_corner() {
    // Only corner 0 inside: one triangle whose vertices lie on the three
    // edges incident to corner 0, at the midpoints for symmetric values.
    let t = MarchTables::new();
    let corners = AABB::unit_cube().calculate_corners();
    let mut values = [-(UNIT / 2); 8];
    values[0] = UNIT / 2;
    let tris = march_cube(&corners, &values, &t);
    assert_eq!(tris.len(), 1);
    let tri = tris[0];
    // Edge slots for configuration 1 are 1, 8, 0: the crossings sit at
    // the midpoints of the z, y and x edges at corner 0.
    assert_eq!(tri.a, v3(0.0, 0.0, 0.5));
    assert_eq!(tri.b, v3(0.0, 0.5, 0.0));
    assert_eq!(tri.c, v3(0.5, 0.0, 0.0));
}

#[test]
fn vert_interp_exact() {
    let p1 = v3(0.0, 0.0, 0.0);
    let p2 = v3(1.0, 0.0, 0.0);
    // Symmetric densities cross in the middle.
    assert_eq!(vert_interp(p1, -100, p2, 100), v3(0.5, 0.0, 0.0));
    // An exactly-zero endpoint wins.
    assert_eq!(vert_interp(p1, 0, p2, 100), p1);
    assert_eq!(vert_interp(p1, -100, p2, 0), p2);
    // Equal densities fall back to the first endpoint.
    assert_eq!(vert_interp(p1, 7, p2, 7), p1);
    // One quarter of the way: t = 100 / 400.
    assert_eq!(vert_interp(p1, -100, p2, 300), v3(0.25, 0.0, 0.0));
    // The parameter clamps to [0, 1] when there is no sign change.
    assert_eq!(vert_interp(p1, 100, p2, 300), p1);
    assert_eq!(vert_interp(p1, -300, p2, -100), p2);
}

#[test]
fn empty_and_full_cells_emit_nothing() {
    let t = MarchTables::new();
    let corners = AABB::unit_cube().calculate_corners();
    assert_eq!(march_cube(&corners, &[-UNIT; 8], &t).len(), 0);
    assert_eq!(march_cube(&corners, &[UNIT; 8], &t).len(), 0);
}

use rusty_ground::tree_key::TreeKey;
use rusty_ground::octant_key::OctantKey;
use rusty_ground::aabb::{AABB, Vec3i};
use rusty_ground::fixed::UNIT;
use rusty_ground::linear_octree::LinearOctree;

fn key_eq(key: u64, test_key: u64) {
    assert_eq!(key, test_key, "KEY MISMATCH\n{:#066b}\n{:#066b}", key, test_key);
}

fn fx(v: f64) -> i64 {
    (v * UNIT as f64).round() as i64
}

#[test]
fn tree_key_modify_test() {
    let mut key = TreeKey::from_iter(&vec![7, 7, 7, 7, 0], 2);
    assert_eq!(key.depth(), 5);
    key_eq(
        key.raw(),
        0b010_0_010010010010010010010010010010010010010010010_000_111_111_111_111,
    );

    key.push(6);
    assert_eq!(key.depth(), 6);
    assert_eq!(key.get_index(5), 0);
    assert_eq!(key.get_index(6), 6);
    assert_eq!(key.get_index(7), key.corner());
    let aabb = key.cell_aabb();
    assert_eq!(
        aabb,
        AABB {
            start: Vec3i { x: fx(0.9375), y: fx(0.953125), z: fx(0.953125) },
            size: Vec3i { x: fx(0.015625), y: fx(0.015625), z: fx(0.015625) },
        }
    );
    key_eq(
        key.raw(),
        0b010_0_010010010010010010010010010010010010010010_110_000_111_111_111_111,
    );

    key.pop();
    assert_eq!(key.depth(), 5);
    assert_eq!(key.get_index(5), 0);
    assert_eq!(key.get_index(6), key.corner());
    assert_eq!(key.get_index(7), key.corner());
    let aabb = key.cell_aabb();
    assert_eq!(
        aabb,
        AABB {
            start: Vec3i { x: fx(0.9375), y: fx(0.9375), z: fx(0.9375) },
            size: Vec3i { x: fx(0.03125), y: fx(0.03125), z: fx(0.03125) },
        }
    );
    key_eq(
        key.raw(),
        0b010_0_010010010010010010010010010010010010010010010_000_111_111_111_111,
    );

    key.set_depth(2);
    assert_eq!(key.get_index(2), 7);
    assert_eq!(key.get_index(3), key.corner());
    let aabb = key.cell_aabb();
    assert_eq!(
        aabb,
        AABB {
            start: Vec3i { x: fx(0.75), y: fx(0.75), z: fx(0.75) },
            size: Vec3i { x: fx(0.25), y: fx(0.25), z: fx(0.25) },
        }
    );
    key_eq(
        key.raw(),
        0b010_0_010010010010010010010010010010010010010010010010010010_111_111,
    );

    key.set_corner(5);
    key_eq(
        key.raw(),
        0b101_0_101101101101101101101101101101101101101101101101101101_111_111,
    );
}

#[test]
fn tree_key_default() {
    let key: TreeKey = Default::default();
    assert_eq!(key.raw(), 0);
    assert_eq!(key.depth(), 0);
}

#[test]
fn tree_key_push_pop_round_trip() {
    // Key round-trip: pop is push's exact inverse, bit for bit.
    let mut key = TreeKey::from_iter(&vec![3, 1, 4], 5);
    let before_raw = key.raw();
    let before_depth = key.depth();
    key.push(6);
    assert_eq!(key.pop(), 6);
    assert_eq!(key.raw(), before_raw);
    assert_eq!(key.depth(), before_depth);

    let mut okey = OctantKey::root().child(2).child(7);
    let before = okey.raw();
    okey.push(5);
    assert_eq!(okey.pop(), 5);
    assert_eq!(okey.raw(), before);
}

#[test]
fn tree_key_corner_sharing() {
    // Corner-key consistency: a cell's key for corner c is bit-identical
    // to the key its child toward octant c builds for the same corner.
    for c in 0..8u8 {
        let cell = TreeKey::from_iter(&vec![4, 2], 0);
        let mut parent_corner = cell;
        parent_corner.set_corner(c);

        let mut child = cell;
        child.push(c);
        let mut child_corner = child;
        child_corner.set_corner(c);

        assert_eq!(parent_corner.raw(), child_corner.raw());
        assert_eq!(parent_corner.corner_keys()[c as usize].raw(), child_corner.raw());
    }
}

#[test]
fn octant_iter() {
    let key = OctantKey::root().child(5).child(3).child(0).child(0).child(7);
    assert_eq!(key.indices(), vec![5, 3, 0, 0, 7]);
}

#[test]
fn octant_contains() {
    let key1 = OctantKey::root().child(0).child(5);
    let key2 = OctantKey::root().child(0).child(5).child(3).child(4);

    assert!(key1.contains(key2));
    // Keys do not contain themselves
    assert!(!key1.contains(key1));

    // Keys do not contain their parents
    let key3 = OctantKey::root().child(0);
    assert!(!key1.contains(key3));

    // Keys do not contain siblings
    let mut key4 = key3.child(4);
    assert!(!key1.contains(key4));

    key4.set_index(2, 5);
    key4.push(5);
    assert!(key1.contains(key4));
}

#[test]
fn octant_key_from_u64() {
    let mut key = OctantKey::root();

    key.set_depth(1);
    assert_eq!(
        key.raw(),
        0b0000100000000000000000000000000000000000000000000000000000000000,
    );

    key.push(4);
    assert_eq!(
        key.raw(),
        0b0001000000000000000000000000000000000000000000000000000000100000,
    );

    key.set_index(1, 7);
    assert_eq!(
        key.raw(),
        0b0001000000000000000000000000000000000000000000000000000000100111,
    );

    assert_eq!(key.pop(), 4);
    assert_eq!(key.get_index(1), 7);
    assert_eq!(
        key.raw(),
        0b0000100000000000000000000000000000000000000000000000000000000111,
    );
}

#[test]
fn octant_key_aabb_and_scale() {
    let key = OctantKey::root().child(5);
    let aabb = key.aabb();
    assert_eq!(aabb.start, Vec3i { x: UNIT / 2, y: 0, z: UNIT / 2 });
    assert_eq!(aabb.size, Vec3i { x: UNIT / 2, y: UNIT / 2, z: UNIT / 2 });
    assert_eq!(key.scale(), UNIT / 2);
    assert_eq!(OctantKey::root().scale(), UNIT);
}

#[test]
fn linear_octree_test() {
    let tree = LinearOctree::new();
    assert_eq!(tree.buf.len(), 8);
    let root = TreeKey::root();
    for k in root.corner_keys() {
        assert_eq!(tree.buf.get(&k.raw()), Some(&-UNIT));
    }
}

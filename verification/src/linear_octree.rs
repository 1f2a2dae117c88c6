//! The linear storage prototype: one flat ordered map from packed
//! corner-addressing keys to density samples, so that cells of different
//! depths share corner data through the canonical corner fill of
//! [`TreeKey`](crate::tree_key::TreeKey).

use vstd::prelude::*;
use std::collections::BTreeMap;
use crate::fixed::UNIT;
use crate::tree_key::TreeKey;

verus! {

broadcast use vstd::laws_cmp::group_laws_cmp,
    vstd::std_specs::btree::axiom_key_obeys_cmp_spec_meaning;

/// A density field stored as a single ordered map keyed by packed corner
/// keys.
pub struct LinearOctree {
    pub buf: BTreeMap<u64, i64>,
}

impl LinearOctree {
    /// A field with the root cell's 8 corners, all at the lowest density.
    pub fn new() -> (r: LinearOctree)
        ensures
            ({
                let root = (TreeKey { key: 0, depth: 0 });
                r.buf@ == Map::<u64, i64>::empty()
                    .insert(root.spec_with_corner(0).key, (0 - UNIT) as i64)
                    .insert(root.spec_with_corner(1).key, (0 - UNIT) as i64)
                    .insert(root.spec_with_corner(2).key, (0 - UNIT) as i64)
                    .insert(root.spec_with_corner(3).key, (0 - UNIT) as i64)
                    .insert(root.spec_with_corner(4).key, (0 - UNIT) as i64)
                    .insert(root.spec_with_corner(5).key, (0 - UNIT) as i64)
                    .insert(root.spec_with_corner(6).key, (0 - UNIT) as i64)
                    .insert(root.spec_with_corner(7).key, (0 - UNIT) as i64)
            }),
    {
        let root = TreeKey::root();
        let corners = root.corner_keys();
        let mut buf: BTreeMap<u64, i64> = BTreeMap::new();
        buf.insert(corners[0].raw(), -UNIT);
        buf.insert(corners[1].raw(), -UNIT);
        buf.insert(corners[2].raw(), -UNIT);
        buf.insert(corners[3].raw(), -UNIT);
        buf.insert(corners[4].raw(), -UNIT);
        buf.insert(corners[5].raw(), -UNIT);
        buf.insert(corners[6].raw(), -UNIT);
        buf.insert(corners[7].raw(), -UNIT);
        let r = LinearOctree { buf };
        proof {
            assert(root == (TreeKey { key: 0, depth: 0 }));
            assert(corners[0] == root.spec_with_corner(0)
                && corners[1] == root.spec_with_corner(1)
                && corners[2] == root.spec_with_corner(2)
                && corners[3] == root.spec_with_corner(3)
                && corners[4] == root.spec_with_corner(4)
                && corners[5] == root.spec_with_corner(5)
                && corners[6] == root.spec_with_corner(6)
                && corners[7] == root.spec_with_corner(7));
        }
        r
    }
}

} // verus!

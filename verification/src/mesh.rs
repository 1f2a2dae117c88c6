//! Triangle meshes produced by the extractor.
//!
//! An `UnindexedMesh` is a plain triangle soup. Indexing deduplicates
//! the vertices into a vertex buffer plus an index buffer, keeping the
//! first-occurrence order; the central invariant is that every index
//! points inside the vertex buffer.

use vstd::prelude::*;
use crate::aabb::Vec3i;
use crate::marching_cubes::Triangle;

verus! {

/// A mesh stored as a flat triangle soup.
pub struct UnindexedMesh {
    pub faces: Vec<Triangle>,
}

/// A mesh with deduplicated vertices and a triangle index buffer.
pub struct Mesh {
    pub vertices: Vec<Vec3i>,
    pub indices: Vec<u32>,
}

/// Vertex `k` of the flattened triangle list: triangle `k / 3`, corner
/// `k % 3`.
pub open spec fn flat_vertex(faces: Seq<Triangle>, k: int) -> Vec3i {
    faces[k / 3].vert(k % 3)
}

/// The first flat position at or after `k` whose vertex is `p`, or
/// `3 * faces.len()` when there is none.
pub open spec fn first_flat_from(faces: Seq<Triangle>, p: Vec3i, k: int) -> int
    decreases 3 * faces.len() - k,
{
    if k < 0 || k >= 3 * faces.len() {
        3 * faces.len() as int
    } else if flat_vertex(faces, k) == p {
        k
    } else {
        first_flat_from(faces, p, k + 1)
    }
}

/// A vertex first occurring at `k` scans to `k` from anywhere at or
/// before it.
proof fn lemma_first_flat(faces: Seq<Triangle>, p: Vec3i, k: int, s: int)
    requires
        0 <= s <= k < 3 * faces.len(),
        flat_vertex(faces, k) == p,
        forall|k2: int| s <= k2 < k ==> flat_vertex(faces, k2) != p,
    ensures
        first_flat_from(faces, p, s) == k,
    decreases k - s,
{
    if s < k {
        lemma_first_flat(faces, p, k, s + 1);
    }
}

/// Whether `p` is one of the first `n` flattened face corners.
pub open spec fn is_flat_vertex(p: Vec3i, n: int, faces: Seq<Triangle>) -> bool {
    exists|k: int| #![trigger flat_vertex(faces, k)] 0 <= k < n && p == flat_vertex(faces, k)
}

/// Every vertex is one of the flattened face corners.
pub open spec fn covers(vertices: Seq<Vec3i>, indices: Seq<u32>, faces: Seq<Triangle>) -> bool {
    forall|j: int| 0 <= j < vertices.len() ==>
        is_flat_vertex(#[trigger] vertices[j], indices.len() as int, faces)
}

/// Establish `covers` from an explicit witness for each vertex.
proof fn lemma_covers(vertices: Seq<Vec3i>, indices: Seq<u32>, faces: Seq<Triangle>, srcs: Seq<int>)
    requires
        srcs.len() == vertices.len(),
        forall|j: int| 0 <= j < vertices.len() ==>
            0 <= #[trigger] srcs[j] < indices.len() && vertices[j] == flat_vertex(faces, srcs[j]),
    ensures
        covers(vertices, indices, faces),
{
    assert forall|j: int| 0 <= j < vertices.len() implies
        is_flat_vertex(#[trigger] vertices[j], indices.len() as int, faces) by {
        let t = srcs[j];
        assert(0 <= t < indices.len() && vertices[j] == flat_vertex(faces, t));
        assert(is_flat_vertex(vertices[j], indices.len() as int, faces));
    }
}

impl Mesh {
    /// Every index points inside the vertex buffer, and no vertex is
    /// repeated.
    pub open spec fn wf(self) -> bool {
        &&& forall|k: int| 0 <= k < self.indices@.len() ==>
                (#[trigger] self.indices@[k]) < self.vertices@.len()
        &&& forall|i: int, j: int| 0 <= i < j < self.vertices@.len() ==>
                self.vertices@[i] != self.vertices@[j]
    }
}

/// Position of `p` in `vs`, if present.
fn find_vertex(vs: &Vec<Vec3i>, p: Vec3i) -> (r: Option<usize>)
    ensures
        match r {
            Some(j) => j < vs@.len() && vs@[j as int] == p,
            None => forall|j: int| 0 <= j < vs@.len() ==> vs@[j] != p,
        },
{
    let mut i: usize = 0;
    while i < vs.len()
        invariant
            i <= vs@.len(),
            forall|j: int| 0 <= j < i ==> vs@[j] != p,
        decreases vs@.len() - i,
    {
        if vs[i].x == p.x && vs[i].y == p.y && vs[i].z == p.z {
            return Some(i);
        }
        i = i + 1;
    }
    None
}

impl UnindexedMesh {
    /// The number of triangles in the soup.
    pub fn face_count(&self) -> (r: usize)
        ensures r == self.faces@.len(),
    {
        self.faces.len()
    }

    /// Deduplicate the soup into a vertex buffer and an index buffer.
    /// Index `k` names the vertex of triangle `k / 3` at corner `k % 3`;
    /// vertices keep their first-occurrence order and appear once each.
    pub fn index(&self) -> (r: Mesh)
        requires
            self.faces@.len() <= 0x1000_0000,
        ensures
            r.wf(),
            r.indices@.len() == 3 * self.faces@.len(),
            forall|k: int| 0 <= k < r.indices@.len() ==>
                r.vertices@[(#[trigger] r.indices@[k]) as int] == flat_vertex(self.faces@, k),
            covers(r.vertices@, r.indices@, self.faces@),
            forall|a: int, b: int| 0 <= a < b < r.vertices@.len() ==>
                #[trigger] first_flat_from(self.faces@, r.vertices@[a], 0)
                    < #[trigger] first_flat_from(self.faces@, r.vertices@[b], 0),
    {
        let mut vertices: Vec<Vec3i> = Vec::new();
        let mut indices: Vec<u32> = Vec::new();
        let ghost mut srcs: Seq<int> = Seq::empty();
        let n = self.faces.len();
        let mut k: usize = 0;
        while k < 3 * n
            invariant
                n == self.faces@.len(),
                n <= 0x1000_0000,
                k <= 3 * n,
                indices@.len() == k,
                vertices@.len() <= k,
                forall|t: int| 0 <= t < k ==>
                    (#[trigger] indices@[t]) < vertices@.len(),
                forall|t: int| 0 <= t < k ==>
                    vertices@[(#[trigger] indices@[t]) as int] == flat_vertex(self.faces@, t),
                forall|i: int, j: int| 0 <= i < j < vertices@.len() ==>
                    vertices@[i] != vertices@[j],
                srcs.len() == vertices@.len(),
                forall|j: int| 0 <= j < vertices@.len() ==>
                    0 <= #[trigger] srcs[j] < k
                        && vertices@[j] == flat_vertex(self.faces@, srcs[j]),
                forall|j: int| 0 <= j < vertices@.len() ==>
                    #[trigger] srcs[j] == first_flat_from(self.faces@, vertices@[j], 0),
                forall|a: int, b: int| 0 <= a < b < vertices@.len() ==>
                    #[trigger] srcs[a] < #[trigger] srcs[b],
            decreases 3 * n - k,
    {
            let t = k / 3;
            let v = k % 3;
            let face = &self.faces[t];
            let p = face.vertex(v);
            proof {
                assert(p == flat_vertex(self.faces@, k as int));
            }
            let j: usize = match find_vertex(&vertices, p) {
                Some(j) => j,
                None => {
                    let j = vertices.len();
                    let ghost oldv = vertices@;
                    vertices.push(p);
                    proof {
                        srcs = srcs.push(k as int);
                        // This is the first flat occurrence of `p`: every
                        // earlier flat vertex is already in the buffer,
                        // and `p` is not.
                        assert forall|k2: int| 0 <= k2 < k implies
                            flat_vertex(self.faces@, k2) != p by {
                            assert(indices@[k2] < oldv.len());
                            assert(oldv[indices@[k2] as int] == flat_vertex(self.faces@, k2));
                            assert(oldv[indices@[k2] as int] != p);
                        }
                        lemma_first_flat(self.faces@, p, k as int, 0);
                    }
                    proof {
                        assert forall|a: int, b: int| 0 <= a < b < vertices@.len() implies
                            vertices@[a] != vertices@[b] by {
                            if b < vertices@.len() - 1 {
                                assert(oldv[a] != oldv[b]);
                            } else {
                                assert(vertices@[b] == p);
                                assert(oldv[a] != p);
                            }
                        }
                    }
                    j
                },
            };
            indices.push(j as u32);
            proof {
                assert forall|t2: int| 0 <= t2 < k + 1 implies
                    (#[trigger] indices@[t2]) < vertices@.len()
                        && vertices@[indices@[t2] as int] == flat_vertex(self.faces@, t2) by {
                }
            }
            k = k + 1;
        }
        proof {
            lemma_covers(vertices@, indices@, self.faces@, srcs);
            assert forall|a: int, b: int| 0 <= a < b < vertices@.len() implies
                #[trigger] first_flat_from(self.faces@, vertices@[a], 0)
                    < #[trigger] first_flat_from(self.faces@, vertices@[b], 0) by {
                assert(srcs[a] == first_flat_from(self.faces@, vertices@[a], 0));
                assert(srcs[b] == first_flat_from(self.faces@, vertices@[b], 0));
                assert(srcs[a] < srcs[b]);
            }
        }
        Mesh { vertices, indices }
    }
}

} // verus!

//! Sparse voxel terrain sculpting with adaptive octrees and Marching Cubes.
//!
//! All geometry and density arithmetic is carried out in fixed-point
//! integers so that every decision the engine makes (sign crossings,
//! box intersections, subdivision and collapse) is exact.

pub mod aabb;
pub mod action;
pub mod fixed;
pub mod linear_octree;
pub mod marching_cubes;
pub mod mesh;
pub mod naive_octree;
pub mod octant_key;
pub mod octant_map;
pub mod packed;
pub mod tool;
pub mod tree_key;
pub mod utils;

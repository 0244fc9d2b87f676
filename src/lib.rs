//! The exact, float-free part of a signed-distance-field voxelizer.
//!
//! A signed distance field is sampled on nested cubic grids; the cells whose
//! sample lies close to the surface are kept and refined level after level.
//! Which cells a grid holds, in which order they are visited, how kept cells
//! are grouped under the cell that produced them, when refinement stops, and
//! how the kept cells become an indexed cube mesh are all decided here. The
//! geometry itself (sampling the field at a cell's center) is done by the
//! caller, who hands back one flag per visited cell.

pub mod grid;
pub mod lod;
pub mod mesh;
pub mod sdf_operations;

//! Voxel terrain: block classification from noise readings, chunk meshing with
//! face culling, and the per-chunk rebuild state machine.

pub mod blocks;
pub mod cube;
pub mod density;
pub mod grid;
pub mod mesh_facts;
pub mod mesher;
pub mod reading;
pub mod scheduler;
pub mod vector;

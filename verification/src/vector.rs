//! Integer vectors: absolute voxel positions, offsets between voxels, and
//! chunk coordinates.

use vstd::prelude::*;

verus! {

/// Width of a chunk along x and z, in voxels.
pub const CW: i32 = 16;

/// Height of every chunk, in voxels.
pub const CH: i32 = 256;

/// An integer 3-vector: an absolute voxel position, or an offset between two.
#[derive(Clone, Copy, Debug, PartialEq, Eq, Structural)]
pub struct IVec3 {
    pub x: i32,
    pub y: i32,
    pub z: i32,
}

/// An integer 2-vector: a chunk coordinate, or a position on the x/z plane.
#[derive(Clone, Copy, Debug, PartialEq, Eq, Structural)]
pub struct IVec2 {
    pub x: i32,
    pub y: i32,
}

/// The chunk that holds a world coordinate along one horizontal axis: the
/// quotient by the chunk width, rounded towards minus infinity.
pub open spec fn chunk_index(c: int) -> int {
    c / 16
}

/// The chunk coordinate of the chunk that holds the voxel at `spot`.
pub open spec fn chunk_of(spot: IVec3) -> (int, int) {
    (chunk_index(spot.x as int), chunk_index(spot.z as int))
}

/// The world coordinate, along one horizontal axis, of the voxel at offset
/// `local` from the origin of chunk `chunk`.
pub open spec fn world_coordinate(chunk: int, local: int) -> int {
    chunk * 16 + local
}

/// The absolute position of the voxel at offset `local` from the origin of a
/// chunk, or `None` where a coordinate cannot be computed in `i32`.
pub fn chunk_spot(chunk: &IVec2, local: IVec3) -> (spot: Option<IVec3>)
    ensures
        spot.is_some() <==> {
            &&& i32::MIN <= chunk.x * 16 <= i32::MAX
            &&& i32::MIN <= chunk.y * 16 <= i32::MAX
            &&& i32::MIN <= world_coordinate(chunk.x as int, local.x as int) <= i32::MAX
            &&& i32::MIN <= world_coordinate(chunk.y as int, local.z as int) <= i32::MAX
        },
        spot.is_some() ==> {
            &&& spot.unwrap().x == world_coordinate(chunk.x as int, local.x as int)
            &&& spot.unwrap().y == local.y
            &&& spot.unwrap().z == world_coordinate(chunk.y as int, local.z as int)
        },
{
    let x = match chunk.x.checked_mul(16) {
        Some(origin) => origin.checked_add(local.x),
        None => None,
    };
    let z = match chunk.y.checked_mul(16) {
        Some(origin) => origin.checked_add(local.z),
        None => None,
    };
    match (x, z) {
        (Some(x), Some(z)) => Some(IVec3 { x, y: local.y, z }),
        _ => None,
    }
}

/// A voxel of a chunk lies in that chunk: the chunk index of the world
/// coordinate at an offset from 0 to 15 from a chunk's origin is the chunk's
/// own, and the voxels one step outside belong to the two neighbours.
pub proof fn lemma_chunk_of_its_voxels(chunk: int, local: int)
    ensures
        0 <= local < 16 ==> chunk_index(world_coordinate(chunk, local)) == chunk,
        chunk_index(world_coordinate(chunk, -1)) == chunk - 1,
        chunk_index(world_coordinate(chunk, 16)) == chunk + 1,
{
}

/// Floor of `c / 16`, computed without leaving `i32`.
fn floor_div_width(c: i32) -> (q: i32)
    ensures
        q == chunk_index(c as int),
{
    if c >= 0 {
        c / 16
    } else {
        // c < 0: floor(c / 16) == -((-c - 1) / 16) - 1, and -(c + 1) fits.
        let m: i32 = -(c + 1);
        -(m / 16) - 1
    }
}

/// The chunk coordinate of a voxel position: each horizontal component divided
/// by the chunk width and rounded down; the height plays no part.
pub fn spot_to_chunk_pos(spot: &IVec3) -> (chunk: IVec2)
    ensures
        (chunk.x as int, chunk.y as int) == chunk_of(*spot),
        16 * chunk.x <= spot.x < 16 * chunk.x + 16,
        16 * chunk.y <= spot.z < 16 * chunk.y + 16,
{
    IVec2 { x: floor_div_width(spot.x), y: floor_div_width(spot.z) }
}

} // verus!

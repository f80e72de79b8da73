//! What holds of every mesh that the mesher makes.

use vstd::prelude::*;
use crate::blocks::Blocks;
use crate::cube::{corner_of_vertex, lemma_opposite_normal, lemma_side_vertex_on_face, normal_of, CubeSide};
use crate::density::{AIR, LIQUID};
use crate::grid::{in_chunk, VoxelGrid};
use crate::mesher::{
    chunk_vertices, face_vertex, face_vertices, face_visible, first_slot, id_at, lemma_six_vertices_a_face,
    lemma_slot_parts, neighbor_id, side_drawn, slot_drawn, slot_side, slot_vertices, slot_x, slot_y, slot_z,
    vertices_upto, Vertex, SLOTS,
};

verus! {

/// Whether a block is solid, opaque and no liquid: it is not air, and the
/// table marks it neither transparent nor semi-transparent.
pub open spec fn opaque_solid(blocks: Blocks, id: u32) -> bool {
    &&& id != AIR
    &&& id != LIQUID
    &&& !blocks.transparent(id)
    &&& !blocks.semi_transparent(id)
}

/// The vertices of the first `count` sides of a voxel, were each of them
/// drawn.
pub open spec fn voxel_faces(blocks: Blocks, x: int, y: int, z: int, block: u32, count: int) -> Seq<Vertex>
    decreases count,
{
    if count <= 0 {
        Seq::empty()
    } else {
        voxel_faces(blocks, x, y, z, block, count - 1) + face_vertices(
            blocks,
            x,
            y,
            z,
            CubeSide::from_index(count - 1),
            block,
            6,
        )
    }
}

/// Whether the voxel at a position is the only one of the chunk that is not
/// air, with air across each of its six sides.
pub open spec fn lone_voxel(blocks: Blocks, grid: VoxelGrid, x: int, y: int, z: int) -> bool {
    &&& in_chunk(x, y, z)
    &&& id_at(blocks, grid, x, y, z) != AIR
    &&& forall|a: int, b: int, c: int|
        in_chunk(a, b, c) && !(a == x && b == y && c == z) ==> #[trigger] id_at(blocks, grid, a, b, c)
            == AIR
    &&& forall|side: CubeSide| #[trigger] neighbor_id(blocks, grid, x, y, z, side) == AIR
}

/// Every slot of the chunk is a side of a voxel of the chunk, and its number
/// is made of that voxel's first slot and the side's place.
pub proof fn lemma_slot_of_number(n: int)
    requires
        0 <= n < SLOTS,
    ensures
        in_chunk(slot_x(n), slot_y(n), slot_z(n)),
        n == first_slot(slot_x(n), slot_y(n), slot_z(n)) + n % 6,
        slot_side(n).index_spec() == n % 6,
{
}

/// No face is drawn between two solid opaque blocks, from either side.
pub proof fn lemma_no_face_between_opaque_blocks(blocks: Blocks, a: u32, b: u32)
    requires
        opaque_solid(blocks, a),
        opaque_solid(blocks, b),
    ensures
        !face_visible(blocks, a, b),
        !face_visible(blocks, b, a),
{
}

/// Where two voxels that touch both hold solid opaque blocks, the mesher draws
/// the side of neither that they share.
pub proof fn lemma_shared_boundary_is_not_drawn(
    blocks: Blocks,
    grid: VoxelGrid,
    x: int,
    y: int,
    z: int,
    side: CubeSide,
)
    requires
        opaque_solid(blocks, id_at(blocks, grid, x, y, z)),
        opaque_solid(blocks, neighbor_id(blocks, grid, x, y, z, side)),
    ensures
        !side_drawn(blocks, grid, x, y, z, side),
        !side_drawn(
            blocks,
            grid,
            x + normal_of(side).x,
            y + normal_of(side).y,
            z + normal_of(side).z,
            side.opposite(),
        ),
{
    lemma_opposite_normal(side);
}

/// The face of liquid towards a transparent block that is no liquid is
/// visible, though neither block is air.
pub proof fn lemma_liquid_face_towards_transparent(blocks: Blocks, neighbor: u32)
    requires
        neighbor != LIQUID,
        blocks.transparent(neighbor),
    ensures
        face_visible(blocks, LIQUID, neighbor),
{
}

/// The mesher draws the side of a liquid voxel across which lies a
/// transparent block that is no liquid.
pub proof fn lemma_liquid_boundary_is_drawn(
    blocks: Blocks,
    grid: VoxelGrid,
    x: int,
    y: int,
    z: int,
    side: CubeSide,
)
    requires
        id_at(blocks, grid, x, y, z) == LIQUID,
        neighbor_id(blocks, grid, x, y, z, side) != LIQUID,
        blocks.transparent(neighbor_id(blocks, grid, x, y, z, side)),
    ensures
        side_drawn(blocks, grid, x, y, z, side),
{
}

/// Liquid draws no face towards liquid, unless the table marks liquid as
/// semi-transparent.
pub proof fn lemma_no_face_between_liquid(blocks: Blocks)
    requires
        !blocks.semi_transparent(LIQUID),
    ensures
        !face_visible(blocks, LIQUID, LIQUID),
{
}

/// With one voxel alone in a chunk of air, the vertices below slot `n` are
/// those of the sides of that voxel that lie below `n`.
proof fn lemma_lone_voxel_upto(blocks: Blocks, grid: VoxelGrid, x: int, y: int, z: int, n: int)
    requires
        lone_voxel(blocks, grid, x, y, z),
        0 <= n <= SLOTS,
    ensures
        vertices_upto(blocks, grid, n) == voxel_faces(
            blocks,
            x,
            y,
            z,
            id_at(blocks, grid, x, y, z),
            if n <= first_slot(x, y, z) {
                0
            } else if n <= first_slot(x, y, z) + 6 {
                n - first_slot(x, y, z)
            } else {
                6
            },
        ),
    decreases n,
{
    if n > 0 {
        lemma_lone_voxel_upto(blocks, grid, x, y, z, n - 1);
        lemma_slot_of_number(n - 1);
        let sx = slot_x(n - 1);
        let sy = slot_y(n - 1);
        let sz = slot_z(n - 1);
        if sx == x && sy == y && sz == z {
            let side = slot_side(n - 1);
            assert(neighbor_id(blocks, grid, x, y, z, side) == AIR);
            assert(slot_drawn(blocks, grid, n - 1));
            assert(CubeSide::from_index((n - 1) % 6) == side);
        } else {
            assert(id_at(blocks, grid, sx, sy, sz) == AIR);
            assert(!slot_drawn(blocks, grid, n - 1));
            if first_slot(x, y, z) <= n - 1 < first_slot(x, y, z) + 6 {
                lemma_slot_parts(x, y, z, n - 1 - first_slot(x, y, z));
            }
        }
    }
}

/// A single solid voxel with air all around it is drawn with exactly six
/// faces: the mesh of its chunk is the 36 vertices of its six sides.
pub proof fn lemma_lone_voxel_has_six_faces(blocks: Blocks, grid: VoxelGrid, x: int, y: int, z: int)
    requires
        lone_voxel(blocks, grid, x, y, z),
    ensures
        chunk_vertices(blocks, grid) == voxel_faces(blocks, x, y, z, id_at(blocks, grid, x, y, z), 6),
        chunk_vertices(blocks, grid).len() == 36,
{
    lemma_lone_voxel_upto(blocks, grid, x, y, z, SLOTS as int);
    lemma_slot_parts(x, y, z, 0);
    reveal_with_fuel(voxel_faces, 7);
}

/// Whether every voxel of the chunk is air.
pub open spec fn all_air(blocks: Blocks, grid: VoxelGrid) -> bool {
    forall|a: int, b: int, c: int| in_chunk(a, b, c) ==> #[trigger] id_at(blocks, grid, a, b, c) == AIR
}

/// In a chunk of air no slot below `n` gives a vertex.
proof fn lemma_air_upto(blocks: Blocks, grid: VoxelGrid, n: int)
    requires
        all_air(blocks, grid),
        0 <= n <= SLOTS,
    ensures
        vertices_upto(blocks, grid, n).len() == 0,
    decreases n,
{
    if n > 0 {
        lemma_air_upto(blocks, grid, n - 1);
        lemma_slot_of_number(n - 1);
    }
}

/// A chunk of air has no vertex, whatever lies around it: its mesh is empty
/// and it has no collision shape.
pub proof fn lemma_air_chunk_is_empty(blocks: Blocks, grid: VoxelGrid)
    requires
        all_air(blocks, grid),
    ensures
        chunk_vertices(blocks, grid).len() == 0,
{
    lemma_air_upto(blocks, grid, SLOTS as int);
}

/// The number of vertices of a chunk's mesh is a multiple of six, and of
/// three: the mesh is whole faces of two triangles.
pub proof fn lemma_vertex_count_is_whole_faces(blocks: Blocks, grid: VoxelGrid)
    ensures
        chunk_vertices(blocks, grid).len() % 6 == 0,
        chunk_vertices(blocks, grid).len() % 3 == 0,
        chunk_vertices(blocks, grid).len() <= 6 * SLOTS,
{
    lemma_six_vertices_a_face(blocks, grid, SLOTS as int);
}

/// Every vertex below slot `n` belongs to a drawn slot below `n`: the `m`-th
/// vertex is one of the six of the returned slot, that with the place of `m`
/// among each six.
pub proof fn lemma_vertex_origin(blocks: Blocks, grid: VoxelGrid, n: int, m: int) -> (slot: int)
    requires
        0 <= m < vertices_upto(blocks, grid, n).len(),
    ensures
        0 <= slot < n,
        slot_drawn(blocks, grid, slot),
        vertices_upto(blocks, grid, n)[m] == slot_vertices(blocks, grid, slot)[m % 6],
    decreases n,
{
    lemma_six_vertices_a_face(blocks, grid, n - 1);
    if m < vertices_upto(blocks, grid, n - 1).len() {
        lemma_vertex_origin(blocks, grid, n - 1, m)
    } else {
        n - 1
    }
}

/// What every vertex of a chunk's mesh is: for some drawn side of a voxel of
/// the chunk that is not air, its normal is that side's, its atlas cell is the
/// one that the table gives the voxel's block for that side, its corner is one
/// of the four, and its position is a corner of that voxel, on that side.
pub proof fn lemma_mesh_vertex(blocks: Blocks, grid: VoxelGrid, m: int) -> (place: (int, int, int, CubeSide))
    requires
        0 <= m < chunk_vertices(blocks, grid).len(),
    ensures
        ({
            let (x, y, z, side) = place;
            let v = chunk_vertices(blocks, grid)[m];
            let block = id_at(blocks, grid, x, y, z);
            &&& in_chunk(x, y, z)
            &&& side_drawn(blocks, grid, x, y, z, side)
            &&& block != AIR
            &&& v == face_vertex(blocks, x, y, z, side, block, m % 6)
            &&& v.normal == normal_of(side)
            &&& v.uv.cell == blocks.cell_of(block, side)
            &&& v.uv.corner == corner_of_vertex(m % 6)
            &&& v.uv.corner < 4
            &&& x <= v.position.x <= x + 1
            &&& y <= v.position.y <= y + 1
            &&& z <= v.position.z <= z + 1
            &&& normal_of(side).x == 1 ==> v.position.x == x + 1
            &&& normal_of(side).x == -1 ==> v.position.x == x
            &&& normal_of(side).y == 1 ==> v.position.y == y + 1
            &&& normal_of(side).y == -1 ==> v.position.y == y
            &&& normal_of(side).z == 1 ==> v.position.z == z + 1
            &&& normal_of(side).z == -1 ==> v.position.z == z
        }),
{
    let slot = lemma_vertex_origin(blocks, grid, SLOTS as int, m);
    lemma_slot_of_number(slot);
    let side = slot_side(slot);
    lemma_side_vertex_on_face(side, m % 6);
    (slot_x(slot), slot_y(slot), slot_z(slot), side)
}

} // verus!

//! The chunk mesher: which faces of which voxels are drawn, and the vertex
//! and index buffers that draw them.

use vstd::prelude::*;
use crate::blocks::{AtlasCell, Blocks};
use crate::cube::{
    corner_of_vertex, get_normal, lemma_side_vertex_on_face, normal_of, side_vertex, Cube, CubeSide,
};
use crate::density::{AIR, LIQUID};
use crate::grid::{in_chunk, VoxelGrid};
use crate::vector::IVec3;

verus! {

/// The number of faces that a chunk's voxels have: six for each voxel.
pub const SLOTS: usize = 393216;

/// Where a vertex takes its colour from: a corner of a cell of the atlas.
#[derive(Clone, Copy, Debug, PartialEq, Eq, Structural)]
pub struct TexCoord {
    /// The cell of the atlas.
    pub cell: AtlasCell,
    /// The corner of the cell, from 0 to 3, in the order of the quad's corners.
    pub corner: u8,
}

/// One vertex of a mesh.
#[derive(Clone, Copy, Debug, PartialEq, Eq, Structural)]
pub struct Vertex {
    /// The position, relative to the chunk's origin.
    pub position: IVec3,
    /// The place in the atlas.
    pub uv: TexCoord,
    /// The outward normal of the face.
    pub normal: IVec3,
}

/// The geometry of a chunk: a list of triangles, three indices each, over
/// three parallel vertex buffers.
#[derive(Debug)]
pub struct GeneratedMesh {
    pub positions: Vec<IVec3>,
    pub uvs: Vec<TexCoord>,
    pub normals: Vec<IVec3>,
    pub indices: Vec<u32>,
}

/// The side of a slot. A slot is a face of a voxel of the chunk; slots are
/// numbered in the order in which the mesher visits them: x upwards, then z
/// upwards, then y downwards, then the six sides.
pub open spec fn slot_side(n: int) -> CubeSide {
    CubeSide::from_index(n % 6)
}

/// The x coordinate of a slot's voxel.
pub open spec fn slot_x(n: int) -> int {
    n / 24576
}

/// The z coordinate of a slot's voxel.
pub open spec fn slot_z(n: int) -> int {
    (n / 1536) % 16
}

/// The y coordinate of a slot's voxel.
pub open spec fn slot_y(n: int) -> int {
    255 - (n / 6) % 256
}

/// The first of the six slots of a voxel of the chunk.
pub open spec fn first_slot(x: int, y: int, z: int) -> int {
    ((x * 16 + z) * 256 + (255 - y)) * 6
}

/// Whether the face of a block towards a neighbour is drawn: the neighbour is
/// air, or semi-transparent, or the block is liquid and the neighbour is a
/// transparent block other than liquid.
pub open spec fn face_visible(blocks: Blocks, block: u32, neighbor: u32) -> bool {
    ||| neighbor == AIR
    ||| blocks.semi_transparent(neighbor)
    ||| (block == LIQUID && neighbor != LIQUID && blocks.transparent(neighbor))
}

/// The block id of the voxel at a position of the grid.
pub open spec fn id_at(blocks: Blocks, grid: VoxelGrid, x: int, y: int, z: int) -> u32 {
    blocks.id_of(grid.value_at(x, y, z))
}

/// The block id of the voxel across a side.
pub open spec fn neighbor_id(blocks: Blocks, grid: VoxelGrid, x: int, y: int, z: int, side: CubeSide) -> u32 {
    id_at(blocks, grid, x + normal_of(side).x, y + normal_of(side).y, z + normal_of(side).z)
}

/// Whether a side of a voxel is drawn: the voxel is not air and its face
/// towards the neighbour across that side is visible.
pub open spec fn side_drawn(blocks: Blocks, grid: VoxelGrid, x: int, y: int, z: int, side: CubeSide) -> bool {
    &&& id_at(blocks, grid, x, y, z) != AIR
    &&& face_visible(blocks, id_at(blocks, grid, x, y, z), neighbor_id(blocks, grid, x, y, z, side))
}

/// Whether a slot is drawn.
pub open spec fn slot_drawn(blocks: Blocks, grid: VoxelGrid, n: int) -> bool {
    side_drawn(blocks, grid, slot_x(n), slot_y(n), slot_z(n), slot_side(n))
}

/// The `t`-th of the six vertices of a side of a voxel that holds `block`.
pub open spec fn face_vertex(blocks: Blocks, x: int, y: int, z: int, side: CubeSide, block: u32, t: int) -> Vertex {
    Vertex {
        position: IVec3 {
            x: (x + side_vertex(side, t).0) as i32,
            y: (y + side_vertex(side, t).1) as i32,
            z: (z + side_vertex(side, t).2) as i32,
        },
        uv: TexCoord { cell: blocks.cell_of(block, side), corner: corner_of_vertex(t) as u8 },
        normal: normal_of(side),
    }
}

/// The first `count` vertices of a side of a voxel.
pub open spec fn face_vertices(
    blocks: Blocks,
    x: int,
    y: int,
    z: int,
    side: CubeSide,
    block: u32,
    count: int,
) -> Seq<Vertex> {
    Seq::new(count as nat, |t: int| face_vertex(blocks, x, y, z, side, block, t))
}

/// The six vertices of a slot.
pub open spec fn slot_vertices(blocks: Blocks, grid: VoxelGrid, n: int) -> Seq<Vertex> {
    face_vertices(
        blocks,
        slot_x(n),
        slot_y(n),
        slot_z(n),
        slot_side(n),
        id_at(blocks, grid, slot_x(n), slot_y(n), slot_z(n)),
        6,
    )
}

/// The vertices of the drawn slots below `n`, slot after slot.
pub open spec fn vertices_upto(blocks: Blocks, grid: VoxelGrid, n: int) -> Seq<Vertex>
    decreases n,
{
    if n <= 0 {
        Seq::empty()
    } else if slot_drawn(blocks, grid, n - 1) {
        vertices_upto(blocks, grid, n - 1) + slot_vertices(blocks, grid, n - 1)
    } else {
        vertices_upto(blocks, grid, n - 1)
    }
}

/// The vertices of a chunk's mesh: six for every drawn face of every voxel of
/// the chunk, in the order of the slots.
pub open spec fn chunk_vertices(blocks: Blocks, grid: VoxelGrid) -> Seq<Vertex> {
    vertices_upto(blocks, grid, SLOTS as int)
}

/// The indices of a mesh of `count` vertices: every vertex once, last first,
/// which turns each triangle round.
pub open spec fn reversed_indices(count: int) -> Seq<u32> {
    Seq::new(count as nat, |m: int| (count - 1 - m) as u32)
}

impl GeneratedMesh {
    /// The buffers are parallel: one uv, one normal and one index for each
    /// position.
    pub open spec fn wf(self) -> bool {
        &&& self.uvs@.len() == self.positions@.len()
        &&& self.normals@.len() == self.positions@.len()
        &&& self.indices@.len() == self.positions@.len()
    }

    /// The vertices of the mesh, read across the three buffers.
    pub open spec fn vertices(self) -> Seq<Vertex> {
        Seq::new(
            self.positions@.len(),
            |m: int| Vertex { position: self.positions@[m], uv: self.uvs@[m], normal: self.normals@[m] },
        )
    }

    /// Each index is its own place: the order in which the vertices were
    /// written.
    pub open spec fn in_emission_order(self) -> bool {
        forall|m: int| 0 <= m < self.indices@.len() ==> #[trigger] self.indices@[m] == m
    }

    /// A mesh without a vertex.
    pub fn new() -> (mesh: GeneratedMesh)
        ensures
            mesh.wf(),
            mesh.in_emission_order(),
            mesh.vertices() == Seq::<Vertex>::empty(),
            mesh.positions@.len() == 0,
    {
        let mesh = GeneratedMesh {
            positions: Vec::new(),
            uvs: Vec::new(),
            normals: Vec::new(),
            indices: Vec::new(),
        };
        assert(mesh.vertices() =~= Seq::<Vertex>::empty());
        mesh
    }

    /// Writes one vertex behind the others, with its own place as its index.
    fn push_vertex(&mut self, position: IVec3, uv: TexCoord, normal: IVec3)
        requires
            old(self).wf(),
            old(self).in_emission_order(),
            old(self).positions@.len() < u32::MAX,
        ensures
            final(self).wf(),
            final(self).in_emission_order(),
            final(self).vertices() == old(self).vertices().push(Vertex { position, uv, normal }),
    {
        let at: u32 = self.indices.len() as u32;
        self.positions.push(position);
        self.uvs.push(uv);
        self.normals.push(normal);
        self.indices.push(at);
        assert(self.vertices() =~= old(self).vertices().push(Vertex { position, uv, normal }));
    }
}

/// The parts of a slot's number: the `s`-th slot of a voxel of the chunk is
/// a slot of the chunk, and it is that side of that voxel.
pub proof fn lemma_slot_parts(x: int, y: int, z: int, s: int)
    requires
        in_chunk(x, y, z),
        0 <= s < 6,
    ensures
        0 <= first_slot(x, y, z) + s < SLOTS,
        slot_x(first_slot(x, y, z) + s) == x,
        slot_y(first_slot(x, y, z) + s) == y,
        slot_z(first_slot(x, y, z) + s) == z,
        slot_side(first_slot(x, y, z) + s) == CubeSide::from_index(s),
{
}

/// A voxel of air draws nothing: the vertices below its first slot are those
/// below the next voxel's.
pub proof fn lemma_air_draws_nothing(blocks: Blocks, grid: VoxelGrid, x: int, y: int, z: int)
    requires
        in_chunk(x, y, z),
        id_at(blocks, grid, x, y, z) == AIR,
    ensures
        vertices_upto(blocks, grid, first_slot(x, y, z) + 6) == vertices_upto(
            blocks,
            grid,
            first_slot(x, y, z),
        ),
{
    let first = first_slot(x, y, z);
    lemma_slot_parts(x, y, z, 0);
    lemma_slot_parts(x, y, z, 1);
    lemma_slot_parts(x, y, z, 2);
    lemma_slot_parts(x, y, z, 3);
    lemma_slot_parts(x, y, z, 4);
    lemma_slot_parts(x, y, z, 5);
    assert(vertices_upto(blocks, grid, first + 1) == vertices_upto(blocks, grid, first));
    assert(vertices_upto(blocks, grid, first + 2) == vertices_upto(blocks, grid, first + 1));
    assert(vertices_upto(blocks, grid, first + 3) == vertices_upto(blocks, grid, first + 2));
    assert(vertices_upto(blocks, grid, first + 4) == vertices_upto(blocks, grid, first + 3));
    assert(vertices_upto(blocks, grid, first + 5) == vertices_upto(blocks, grid, first + 4));
    assert(vertices_upto(blocks, grid, first + 6) == vertices_upto(blocks, grid, first + 5));
}

/// The corner of the quad that the `t`-th vertex of a face is.
pub fn vertex_corner(t: usize) -> (corner: u8)
    requires
        t < 6,
    ensures
        corner == corner_of_vertex(t as int),
        corner < 4,
{
    if t == 0 {
        0
    } else if t == 1 {
        1
    } else if t == 2 {
        2
    } else if t == 3 {
        2
    } else if t == 4 {
        3
    } else {
        0
    }
}

/// Whether the face of a block towards a neighbour is drawn.
pub fn is_face_visible(blocks: &Blocks, block: u32, neighbor: u32) -> (drawn: bool)
    ensures
        drawn == face_visible(*blocks, block, neighbor),
{
    let neighbor_semi_transparent = blocks.is_semi_transparent(neighbor);
    let water_bordering_transparent = block == LIQUID && neighbor != LIQUID && blocks.is_transparent(
        neighbor,
    );
    neighbor == AIR || neighbor_semi_transparent || water_bordering_transparent
}

/// Writes the six vertices of one side of a voxel.
fn emit_face(mesh: &mut GeneratedMesh, blocks: &Blocks, x: i32, y: i32, z: i32, side: CubeSide, block: u32)
    requires
        old(mesh).wf(),
        old(mesh).in_emission_order(),
        old(mesh).positions@.len() + 6 < u32::MAX,
        in_chunk(x as int, y as int, z as int),
    ensures
        final(mesh).wf(),
        final(mesh).in_emission_order(),
        final(mesh).positions@.len() == old(mesh).positions@.len() + 6,
        final(mesh).vertices() == old(mesh).vertices() + face_vertices(
            *blocks,
            x as int,
            y as int,
            z as int,
            side,
            block,
            6,
        ),
{
    let template = Cube::get_side(side);
    let cell = blocks.get_tex_coords(block, side);
    let normal = get_normal(side);
    let ghost before = mesh.vertices();
    assert(mesh.vertices() =~= before + face_vertices(*blocks, x as int, y as int, z as int, side, block, 0));
    let mut t: usize = 0;
    while t < 6
        invariant
            t <= 6,
            mesh.wf(),
            mesh.in_emission_order(),
            mesh.positions@.len() == before.len() + t,
            before.len() + 6 < u32::MAX,
            in_chunk(x as int, y as int, z as int),
            cell == blocks.cell_of(block, side),
            normal == normal_of(side),
            forall|u: int|
                0 <= u < 6 ==> (
                    #[trigger] template@[3 * u] as int,
                    template@[3 * u + 1] as int,
                    template@[3 * u + 2] as int,
                ) == side_vertex(side, u),
            mesh.vertices() == before + face_vertices(
                *blocks,
                x as int,
                y as int,
                z as int,
                side,
                block,
                t as int,
            ),
        decreases 6 - t,
    {
        let ghost written = mesh.vertices();
        assert((
            template@[3 * (t as int)] as int,
            template@[3 * (t as int) + 1] as int,
            template@[3 * (t as int) + 2] as int,
        ) == side_vertex(side, t as int));
        proof {
            lemma_side_vertex_on_face(side, t as int);
        }
        let dx: i32 = template[3 * t] as i32;
        let dy: i32 = template[3 * t + 1] as i32;
        let dz: i32 = template[3 * t + 2] as i32;
        let position = IVec3 { x: x + dx, y: y + dy, z: z + dz };
        let uv = TexCoord { cell, corner: vertex_corner(t) };
        mesh.push_vertex(position, uv, normal);
        assert(Vertex { position, uv, normal } == face_vertex(
            *blocks,
            x as int,
            y as int,
            z as int,
            side,
            block,
            t as int,
        ));
        assert(written.push(Vertex { position, uv, normal }) =~= before + face_vertices(
            *blocks,
            x as int,
            y as int,
            z as int,
            side,
            block,
            t as int + 1,
        ));
        t = t + 1;
    }
}

/// Writes the drawn faces of one voxel of the chunk.
fn mesh_voxel(mesh: &mut GeneratedMesh, blocks: &Blocks, grid: &VoxelGrid, x: i32, y: i32, z: i32)
    requires
        grid.wf(),
        in_chunk(x as int, y as int, z as int),
        old(mesh).wf(),
        old(mesh).in_emission_order(),
        old(mesh).positions@.len() <= 6 * first_slot(x as int, y as int, z as int),
        old(mesh).vertices() == vertices_upto(*blocks, *grid, first_slot(x as int, y as int, z as int)),
    ensures
        final(mesh).wf(),
        final(mesh).in_emission_order(),
        final(mesh).positions@.len() <= 6 * (first_slot(x as int, y as int, z as int) + 6),
        final(mesh).vertices() == vertices_upto(
            *blocks,
            *grid,
            first_slot(x as int, y as int, z as int) + 6,
        ),
{
    let ghost first = first_slot(x as int, y as int, z as int);
    let block = grid.get(x, y, z) & blocks.block_id_bits();
    if block == AIR {
        proof {
            lemma_air_draws_nothing(*blocks, *grid, x as int, y as int, z as int);
        }
        return ;
    }
    let neighbors = Cube::get_neighbors();
    let mut s: usize = 0;
    while s < 6
        invariant
            s <= 6,
            grid.wf(),
            in_chunk(x as int, y as int, z as int),
            first == first_slot(x as int, y as int, z as int),
            block == id_at(*blocks, *grid, x as int, y as int, z as int),
            block != AIR,
            forall|n: int| 0 <= n < 6 ==> #[trigger] neighbors@[n] == normal_of(CubeSide::from_index(n)),
            mesh.wf(),
            mesh.in_emission_order(),
            mesh.positions@.len() <= 6 * (first + s),
            mesh.vertices() == vertices_upto(*blocks, *grid, first + s),
        decreases 6 - s,
    {
        proof {
            lemma_slot_parts(x as int, y as int, z as int, s as int);
        }
        let side = CubeSide::from_primitive(s);
        let offset = neighbors[s];
        assert(offset == normal_of(side));
        let neighbor = grid.get(x + offset.x, y + offset.y, z + offset.z) & blocks.block_id_bits();
        assert(neighbor == neighbor_id(*blocks, *grid, x as int, y as int, z as int, side));
        if is_face_visible(blocks, block, neighbor) {
            emit_face(mesh, blocks, x, y, z, side, block);
        }
        s = s + 1;
    }
}

/// The mesh of a chunk: the vertices of every drawn face, and the indices
/// that walk them last to first.
pub fn mesh_chunk(blocks: &Blocks, grid: &VoxelGrid) -> (mesh: GeneratedMesh)
    requires
        grid.wf(),
    ensures
        mesh.wf(),
        mesh.vertices() == chunk_vertices(*blocks, *grid),
        mesh.indices@ == reversed_indices(mesh.positions@.len() as int),
{
    let mut mesh = GeneratedMesh::new();
    let mut x: i32 = 0;
    while x < 16
        invariant
            0 <= x <= 16,
            grid.wf(),
            mesh.wf(),
            mesh.in_emission_order(),
            mesh.positions@.len() <= 6 * first_slot(x as int, 255, 0),
            mesh.vertices() == vertices_upto(*blocks, *grid, first_slot(x as int, 255, 0)),
        decreases 16 - x,
    {
        let mut z: i32 = 0;
        while z < 16
            invariant
                0 <= x < 16,
                0 <= z <= 16,
                grid.wf(),
                mesh.wf(),
                mesh.in_emission_order(),
                mesh.positions@.len() <= 6 * first_slot(x as int, 255, z as int),
                mesh.vertices() == vertices_upto(*blocks, *grid, first_slot(x as int, 255, z as int)),
            decreases 16 - z,
        {
            let mut below: i32 = 0;
            while below < 256
                invariant
                    0 <= x < 16,
                    0 <= z < 16,
                    0 <= below <= 256,
                    grid.wf(),
                    mesh.wf(),
                    mesh.in_emission_order(),
                    mesh.positions@.len() <= 6 * first_slot(x as int, 255 - below, z as int),
                    mesh.vertices() == vertices_upto(
                        *blocks,
                        *grid,
                        first_slot(x as int, 255 - below, z as int),
                    ),
                decreases 256 - below,
            {
                mesh_voxel(&mut mesh, blocks, grid, x, 255 - below, z);
                below = below + 1;
            }
            z = z + 1;
        }
        x = x + 1;
    }
    let count: usize = mesh.indices.len();
    let mut indices: Vec<u32> = Vec::new();
    let mut m: usize = 0;
    while m < count
        invariant
            m <= count,
            count <= 6 * SLOTS,
            indices@.len() == m,
            forall|a: int| 0 <= a < m ==> #[trigger] indices@[a] == count - 1 - a,
        decreases count - m,
    {
        indices.push((count - 1 - m) as u32);
        m = m + 1;
    }
    mesh.indices = indices;
    assert(mesh.indices@ =~= reversed_indices(mesh.positions@.len() as int));
    mesh
}

/// The number of drawn slots below `n`.
pub open spec fn drawn_count(blocks: Blocks, grid: VoxelGrid, n: int) -> int
    decreases n,
{
    if n <= 0 {
        0
    } else if slot_drawn(blocks, grid, n - 1) {
        drawn_count(blocks, grid, n - 1) + 1
    } else {
        drawn_count(blocks, grid, n - 1)
    }
}

/// Every drawn slot gives six vertices and an undrawn one none: the number of
/// vertices is six times the number of drawn slots.
pub proof fn lemma_six_vertices_a_face(blocks: Blocks, grid: VoxelGrid, n: int)
    ensures
        0 <= drawn_count(blocks, grid, n),
        n >= 0 ==> drawn_count(blocks, grid, n) <= n,
        vertices_upto(blocks, grid, n).len() == 6 * drawn_count(blocks, grid, n),
    decreases n,
{
    if n > 0 {
        lemma_six_vertices_a_face(blocks, grid, n - 1);
    }
}

/// Why a mesh cannot be made into a collision shape.
#[derive(Clone, Copy, Debug, PartialEq, Eq, Structural)]
pub enum MeshError {
    /// The mesh has no triangle.
    EmptyGeometry,
    /// An index names no vertex.
    IndexOutOfRange,
}

/// Three vertices, by their indices.
#[derive(Clone, Copy, Debug, PartialEq, Eq, Structural)]
pub struct Triangle {
    pub a: u32,
    pub b: u32,
    pub c: u32,
}

/// The shape that a chunk collides with: the triangles of its mesh.
#[derive(Debug)]
pub struct CollisionMesh {
    pub vertices: Vec<IVec3>,
    pub triangles: Vec<Triangle>,
}

/// The triangles of an index list: each three indices in a row, without what
/// is left over at the end.
pub open spec fn triangles_of(indices: Seq<u32>) -> Seq<Triangle> {
    Seq::new(
        (indices.len() / 3) as nat,
        |t: int| Triangle { a: indices[3 * t], b: indices[3 * t + 1], c: indices[3 * t + 2] },
    )
}

/// Whether every index names a vertex.
pub open spec fn indices_in_range(indices: Seq<u32>, count: int) -> bool {
    forall|m: int| 0 <= m < indices.len() ==> #[trigger] indices[m] < count
}

impl CollisionMesh {
    /// The collision shape of a mesh, from the same positions and indices.
    /// A mesh without a triangle has none, nor has one with an index that
    /// names no vertex.
    pub fn from_mesh(mesh: &GeneratedMesh) -> (shape: Result<CollisionMesh, MeshError>)
        ensures
            shape.is_err() <==> mesh.indices@.len() < 3 || !indices_in_range(
                mesh.indices@,
                mesh.positions@.len() as int,
            ),
            shape matches Err(e) ==> (e == MeshError::EmptyGeometry <==> mesh.indices@.len() < 3),
            shape.is_ok() ==> shape.unwrap().vertices@ == mesh.positions@ && shape.unwrap().triangles@
                == triangles_of(mesh.indices@),
    {
        let count = mesh.indices.len();
        if count < 3 {
            return Err(MeshError::EmptyGeometry);
        }
        let mut m: usize = 0;
        while m < count
            invariant
                m <= count,
                count >= 3,
                count == mesh.indices@.len(),
                forall|a: int| 0 <= a < m ==> #[trigger] mesh.indices@[a] < mesh.positions@.len(),
            decreases count - m,
        {
            if mesh.indices[m] as usize >= mesh.positions.len() {
                return Err(MeshError::IndexOutOfRange);
            }
            m = m + 1;
        }
        let mut vertices: Vec<IVec3> = Vec::new();
        let mut v: usize = 0;
        while v < mesh.positions.len()
            invariant
                v <= mesh.positions@.len(),
                vertices@ == mesh.positions@.subrange(0, v as int),
            decreases mesh.positions@.len() - v,
        {
            vertices.push(mesh.positions[v]);
            assert(vertices@ =~= mesh.positions@.subrange(0, v as int + 1));
            v = v + 1;
        }
        assert(vertices@ =~= mesh.positions@);
        let mut triangles: Vec<Triangle> = Vec::new();
        let mut t: usize = 0;
        while t < count / 3
            invariant
                t <= count / 3,
                count == mesh.indices@.len(),
                triangles@.len() == t,
                forall|u: int|
                    0 <= u < t ==> #[trigger] triangles@[u] == (Triangle {
                        a: mesh.indices@[3 * u],
                        b: mesh.indices@[3 * u + 1],
                        c: mesh.indices@[3 * u + 2],
                    }),
            decreases count / 3 - t,
        {
            triangles.push(
                Triangle { a: mesh.indices[3 * t], b: mesh.indices[3 * t + 1], c: mesh.indices[3 * t + 2] },
            );
            t = t + 1;
        }
        assert(triangles@ =~= triangles_of(mesh.indices@));
        Ok(CollisionMesh { vertices, triangles })
    }
}

/// The mesh of a chunk and its collision shape. A chunk that draws no face
/// has neither.
pub fn build_chunk_mesh(blocks: &Blocks, grid: &VoxelGrid) -> (built: Result<
    (GeneratedMesh, CollisionMesh),
    MeshError,
>)
    requires
        grid.wf(),
    ensures
        built.is_err() <==> chunk_vertices(*blocks, *grid).len() == 0,
        built matches Err(e) ==> e == MeshError::EmptyGeometry,
        built.is_ok() ==> {
            let (mesh, shape) = built.unwrap();
            &&& mesh.wf()
            &&& mesh.vertices() == chunk_vertices(*blocks, *grid)
            &&& mesh.indices@ == reversed_indices(mesh.positions@.len() as int)
            &&& shape.vertices@ == mesh.positions@
            &&& shape.triangles@ == triangles_of(mesh.indices@)
        },
{
    let mesh = mesh_chunk(blocks, grid);
    proof {
        lemma_six_vertices_a_face(*blocks, *grid, SLOTS as int);
        assert(mesh.vertices().len() == mesh.positions@.len());
        assert forall|m: int| 0 <= m < mesh.indices@.len() implies #[trigger] mesh.indices@[m]
            < mesh.positions@.len() by {}
    }
    let made = CollisionMesh::from_mesh(&mesh);
    match made {
        Ok(shape) => Ok((mesh, shape)),
        Err(_) => Err(MeshError::EmptyGeometry),
    }
}

} // verus!

use voxel_terrain::blocks::{AtlasCell, BlockInfo, Blocks};
use voxel_terrain::cube::{get_normal, Cube, CubeSide};
use voxel_terrain::grid::VoxelGrid;
use voxel_terrain::mesher::{
    build_chunk_mesh, is_face_visible, mesh_chunk, CollisionMesh, GeneratedMesh, MeshError, TexCoord, Triangle,
};
use voxel_terrain::vector::IVec3;

const STONE: u32 = 5;
const WATER: u32 = 2;
const GLASS: u32 = 8;
const LEAVES: u32 = 7;
const ID_MASK: u32 = 0x0000_FFFF;
const FLAG_MASK: u32 = 0xFFFF_0000;

fn cell(column: u8, row: u8) -> AtlasCell {
    AtlasCell { column, row }
}

fn row(id: u8, transparent: bool, semi_transparent: bool) -> BlockInfo {
    BlockInfo {
        transparent,
        semi_transparent,
        cells: [cell(id, 0), cell(id, 1), cell(id, 2), cell(id, 3), cell(id, 4), cell(id, 5)],
    }
}

/// Ids 0 to 8: water and glass are transparent, leaves are semi-transparent.
fn table() -> Blocks {
    let mut rows = Vec::new();
    for id in 0..9u8 {
        let id32 = id as u32;
        rows.push(row(id, id32 == WATER || id32 == GLASS, id32 == LEAVES));
    }
    Blocks::new(ID_MASK, FLAG_MASK, rows).unwrap()
}

fn grid_with(voxels: &[(i32, i32, i32, u32)]) -> VoxelGrid {
    let mut grid = VoxelGrid::new(0);
    for &(x, y, z, value) in voxels {
        grid.set(x, y, z, value);
    }
    grid
}

fn face_count(voxels: &[(i32, i32, i32, u32)]) -> usize {
    let mesh = mesh_chunk(&table(), &grid_with(voxels));
    assert_eq!(mesh.positions.len() % 6, 0);
    mesh.positions.len() / 6
}

fn faces_with_normal(mesh: &GeneratedMesh, side: CubeSide) -> usize {
    let normal = get_normal(side);
    mesh.normals.iter().filter(|n| **n == normal).count() / 6
}

#[test]
fn a_lone_voxel_has_six_faces() {
    let mesh = mesh_chunk(&table(), &grid_with(&[(5, 100, 7, STONE)]));
    assert_eq!(mesh.positions.len(), 36);
    assert_eq!(mesh.uvs.len(), 36);
    assert_eq!(mesh.normals.len(), 36);
    assert_eq!(mesh.indices.len(), 36);
}

#[test]
fn a_lone_voxel_has_six_faces_wherever_it_stands() {
    assert_eq!(face_count(&[(0, 0, 0, STONE)]), 6);
    assert_eq!(face_count(&[(15, 255, 15, STONE)]), 6);
    assert_eq!(face_count(&[(0, 255, 15, WATER)]), 6);
    assert_eq!(face_count(&[(8, 1, 8, LEAVES)]), 6);
}

#[test]
fn indices_walk_the_vertices_last_to_first() {
    let mesh = mesh_chunk(&table(), &grid_with(&[(5, 100, 7, STONE)]));
    let expected: Vec<u32> = (0..36).rev().collect();
    assert_eq!(mesh.indices, expected);
}

#[test]
fn a_face_is_the_side_template_moved_to_the_voxel() {
    let mesh = mesh_chunk(&table(), &grid_with(&[(5, 100, 7, STONE)]));
    let sides = [
        CubeSide::LEFT,
        CubeSide::RIGHT,
        CubeSide::BOTTOM,
        CubeSide::TOP,
        CubeSide::BACK,
        CubeSide::FRONT,
    ];
    for (s, side) in sides.iter().enumerate() {
        let template = Cube::get_side(*side);
        for t in 0..6 {
            let m = 6 * s + t;
            assert_eq!(
                mesh.positions[m],
                IVec3 {
                    x: 5 + template[3 * t] as i32,
                    y: 100 + template[3 * t + 1] as i32,
                    z: 7 + template[3 * t + 2] as i32,
                }
            );
            assert_eq!(mesh.normals[m], get_normal(*side));
        }
    }
    assert_eq!(mesh.positions[0], IVec3 { x: 5, y: 100, z: 8 });
    assert_eq!(mesh.positions[35], IVec3 { x: 6, y: 100, z: 8 });
}

#[test]
fn uvs_take_the_cell_of_the_block_and_side() {
    let mesh = mesh_chunk(&table(), &grid_with(&[(5, 100, 7, STONE)]));
    let corners = [0u8, 1, 2, 2, 3, 0];
    for s in 0..6 {
        for t in 0..6 {
            assert_eq!(mesh.uvs[6 * s + t], TexCoord { cell: cell(5, s as u8), corner: corners[t] });
        }
    }
}

#[test]
fn a_block_without_a_row_is_opaque_and_drawn_with_the_first_cell() {
    let blocks = table();
    assert!(!blocks.is_transparent(400));
    assert!(!blocks.is_semi_transparent(400));
    assert_eq!(blocks.get_tex_coords(400, CubeSide::TOP), cell(0, 0));
    let mesh = mesh_chunk(&blocks, &grid_with(&[(1, 1, 1, 400), (2, 1, 1, STONE)]));
    assert_eq!(mesh.positions.len(), 60);
    assert_eq!(mesh.uvs[0].cell, cell(0, 0));
}

#[test]
fn no_face_between_two_opaque_voxels() {
    let voxels = [(5, 100, 7, STONE), (6, 100, 7, 3)];
    assert_eq!(face_count(&voxels), 10);
    let mesh = mesh_chunk(&table(), &grid_with(&voxels));
    // The first voxel lacks its right face, the second its left one.
    assert_eq!(faces_with_normal(&mesh, CubeSide::RIGHT), 1);
    assert_eq!(faces_with_normal(&mesh, CubeSide::LEFT), 1);
    assert_eq!(faces_with_normal(&mesh, CubeSide::TOP), 2);
    for m in 0..30 {
        assert!(mesh.normals[m] != get_normal(CubeSide::RIGHT));
    }
    for m in 30..60 {
        assert!(mesh.normals[m] != get_normal(CubeSide::LEFT));
    }
}

#[test]
fn no_face_between_opaque_voxels_along_each_axis() {
    assert_eq!(face_count(&[(5, 100, 7, STONE), (5, 101, 7, STONE)]), 10);
    assert_eq!(face_count(&[(5, 100, 7, STONE), (5, 100, 8, STONE)]), 10);
    assert_eq!(face_count(&[(5, 100, 7, STONE), (4, 100, 7, STONE)]), 10);
    // Not adjacent: nothing is shared.
    assert_eq!(face_count(&[(5, 100, 7, STONE), (7, 100, 7, STONE)]), 12);
}

#[test]
fn liquid_draws_its_face_towards_a_transparent_block() {
    let voxels = [(5, 100, 7, WATER), (6, 100, 7, GLASS)];
    let mesh = mesh_chunk(&table(), &grid_with(&voxels));
    // Water draws all six sides; glass does not draw the side towards water.
    assert_eq!(mesh.positions.len(), 66);
    for s in 0..6 {
        assert_eq!(mesh.uvs[6 * s].cell, cell(WATER as u8, s as u8));
    }
    assert_eq!(mesh.normals[6], get_normal(CubeSide::RIGHT));
    for m in 36..66 {
        assert_eq!(mesh.uvs[m].cell.column, GLASS as u8);
        assert!(mesh.normals[m] != get_normal(CubeSide::LEFT));
    }
}

#[test]
fn liquid_draws_no_face_towards_liquid() {
    assert_eq!(face_count(&[(5, 100, 7, WATER), (6, 100, 7, WATER)]), 10);
    assert_eq!(face_count(&[(5, 100, 7, WATER), (5, 99, 7, WATER)]), 10);
}

#[test]
fn liquid_draws_no_face_towards_an_opaque_block() {
    assert_eq!(face_count(&[(5, 100, 7, WATER), (6, 100, 7, STONE)]), 10);
}

#[test]
fn every_face_towards_a_semi_transparent_block_is_drawn() {
    // Stone draws towards leaves; leaves do not draw towards stone.
    assert_eq!(face_count(&[(5, 100, 7, STONE), (6, 100, 7, LEAVES)]), 11);
    // Leaves draw towards leaves from both sides.
    assert_eq!(face_count(&[(5, 100, 7, LEAVES), (6, 100, 7, LEAVES)]), 12);
}

#[test]
fn the_face_rule_by_block_and_neighbour() {
    let blocks = table();
    assert!(is_face_visible(&blocks, STONE, 0));
    assert!(is_face_visible(&blocks, WATER, 0));
    assert!(!is_face_visible(&blocks, STONE, STONE));
    assert!(!is_face_visible(&blocks, STONE, WATER));
    assert!(!is_face_visible(&blocks, STONE, GLASS));
    assert!(is_face_visible(&blocks, STONE, LEAVES));
    assert!(is_face_visible(&blocks, WATER, GLASS));
    assert!(!is_face_visible(&blocks, WATER, WATER));
    assert!(!is_face_visible(&blocks, WATER, STONE));
    assert!(!is_face_visible(&blocks, GLASS, WATER));
    assert!(!is_face_visible(&blocks, GLASS, GLASS));
}

#[test]
fn voxels_around_the_chunk_hide_faces_and_are_not_drawn() {
    assert_eq!(face_count(&[(-1, 10, 3, STONE)]), 0);
    assert_eq!(face_count(&[(16, 10, 3, STONE), (3, -1, 3, STONE), (3, 256, 3, STONE)]), 0);
    let voxels = [(0, 10, 3, STONE), (-1, 10, 3, STONE)];
    let mesh = mesh_chunk(&table(), &grid_with(&voxels));
    assert_eq!(mesh.positions.len(), 30);
    assert_eq!(faces_with_normal(&mesh, CubeSide::LEFT), 0);
    assert_eq!(face_count(&[(3, 255, 3, STONE), (3, 256, 3, STONE)]), 5);
    assert_eq!(face_count(&[(3, 0, 15, STONE), (3, 0, 16, STONE), (3, -1, 15, STONE)]), 4);
}

#[test]
fn flags_play_no_part_in_the_mesh() {
    let plain = mesh_chunk(&table(), &grid_with(&[(5, 100, 7, STONE), (6, 100, 7, WATER)]));
    let flagged = mesh_chunk(
        &table(),
        &grid_with(&[(5, 100, 7, STONE | 0x0003_0000), (6, 100, 7, WATER | 0x8000_0000)]),
    );
    assert_eq!(plain.positions, flagged.positions);
    assert_eq!(plain.uvs, flagged.uvs);
    assert_eq!(plain.normals, flagged.normals);
    assert_eq!(plain.indices, flagged.indices);
    // A value with flags only is air.
    assert_eq!(face_count(&[(5, 100, 7, 0x0001_0000)]), 0);
}

#[test]
fn voxels_are_visited_by_x_then_z_then_from_the_top_down() {
    let voxels = [(2, 10, 2, 3), (2, 200, 2, 4), (2, 250, 1, 5), (1, 0, 15, 6)];
    let mesh = mesh_chunk(&table(), &grid_with(&voxels));
    assert_eq!(mesh.positions.len(), 4 * 36);
    let order: Vec<u8> = (0..4).map(|v| mesh.uvs[36 * v].cell.column).collect();
    assert_eq!(order, vec![6, 5, 4, 3]);
}

#[test]
fn a_full_column_draws_its_sides_and_its_two_ends() {
    let mut voxels = Vec::new();
    for y in 0..256 {
        voxels.push((4, y, 9, STONE));
    }
    assert_eq!(face_count(&voxels), 4 * 256 + 2);
}

#[test]
fn a_chunk_of_air_has_no_mesh_and_no_shape() {
    let blocks = table();
    let grid = VoxelGrid::new(0);
    let mesh = mesh_chunk(&blocks, &grid);
    assert!(mesh.positions.is_empty());
    assert!(mesh.indices.is_empty());
    assert_eq!(build_chunk_mesh(&blocks, &grid).err(), Some(MeshError::EmptyGeometry));
    assert_eq!(CollisionMesh::from_mesh(&mesh).err(), Some(MeshError::EmptyGeometry));
}

#[test]
fn the_shape_has_the_triangles_of_the_mesh() {
    let (mesh, shape) = build_chunk_mesh(&table(), &grid_with(&[(5, 100, 7, STONE)])).unwrap();
    assert_eq!(mesh.positions.len(), 36);
    assert_eq!(shape.vertices, mesh.positions);
    assert_eq!(shape.triangles.len(), 12);
    assert_eq!(shape.triangles[0], Triangle { a: 35, b: 34, c: 33 });
    assert_eq!(shape.triangles[11], Triangle { a: 2, b: 1, c: 0 });
    for (t, triangle) in shape.triangles.iter().enumerate() {
        assert_eq!(triangle.a, mesh.indices[3 * t]);
        assert_eq!(triangle.b, mesh.indices[3 * t + 1]);
        assert_eq!(triangle.c, mesh.indices[3 * t + 2]);
    }
}

#[test]
fn a_shape_needs_a_triangle_and_indices_that_name_vertices() {
    let p = IVec3 { x: 0, y: 0, z: 0 };
    let uv = TexCoord { cell: cell(0, 0), corner: 0 };
    let two = GeneratedMesh { positions: vec![p, p], uvs: vec![uv, uv], normals: vec![p, p], indices: vec![1, 0] };
    assert_eq!(CollisionMesh::from_mesh(&two).err(), Some(MeshError::EmptyGeometry));
    let bad = GeneratedMesh {
        positions: vec![p, p, p],
        uvs: vec![uv, uv, uv],
        normals: vec![p, p, p],
        indices: vec![2, 3, 0],
    };
    assert_eq!(CollisionMesh::from_mesh(&bad).err(), Some(MeshError::IndexOutOfRange));
    let four = GeneratedMesh {
        positions: vec![p, p, p, p],
        uvs: vec![uv, uv, uv, uv],
        normals: vec![p, p, p, p],
        indices: vec![3, 2, 1, 0],
    };
    let shape = CollisionMesh::from_mesh(&four).unwrap();
    assert_eq!(shape.triangles, vec![Triangle { a: 3, b: 2, c: 1 }]);
    assert_eq!(shape.vertices.len(), 4);
}

#[test]
fn a_table_needs_masks_that_share_no_bit() {
    assert!(Blocks::new(0x0000_FFFF, 0xFFFF_0000, Vec::new()).is_some());
    assert!(Blocks::new(0x0000_FFFF, 0x0000_8000, Vec::new()).is_none());
    assert!(Blocks::new(0, 0, Vec::new()).is_some());
    let blocks = table();
    assert_eq!(blocks.block_id_bits(), ID_MASK);
    assert_eq!(blocks.block_flag_bits(), FLAG_MASK);
    assert_eq!(blocks.block_id_bits() & blocks.block_flag_bits(), 0);
}

#[test]
fn the_grid_keeps_what_is_stored() {
    let mut grid = VoxelGrid::new(9);
    assert_eq!(grid.get(-1, -1, -1), 9);
    assert_eq!(grid.get(16, 256, 16), 9);
    grid.set(-1, -1, -1, 1);
    grid.set(16, 256, 16, 2);
    grid.set(0, 0, 0, 3);
    grid.set(0, 1, 0, 4);
    grid.set(1, 0, 0, 5);
    grid.set(0, 0, 1, 6);
    assert_eq!(grid.get(-1, -1, -1), 1);
    assert_eq!(grid.get(16, 256, 16), 2);
    assert_eq!(grid.get(0, 0, 0), 3);
    assert_eq!(grid.get(0, 1, 0), 4);
    assert_eq!(grid.get(1, 0, 0), 5);
    assert_eq!(grid.get(0, 0, 1), 6);
    assert_eq!(grid.get(1, 1, 1), 9);
}

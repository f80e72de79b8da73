use voxel_terrain::cube::{get_normal, Cube, CubeSide};
use voxel_terrain::mesher::vertex_corner;
use voxel_terrain::vector::IVec3;

const SIDES: [CubeSide; 6] = [
    CubeSide::LEFT,
    CubeSide::RIGHT,
    CubeSide::BOTTOM,
    CubeSide::TOP,
    CubeSide::BACK,
    CubeSide::FRONT,
];

#[test]
fn sides_are_numbered_in_visiting_order() {
    for (n, side) in SIDES.iter().enumerate() {
        assert_eq!(side.index(), n);
        assert_eq!(CubeSide::from_primitive(n), *side);
    }
}

#[test]
fn a_number_past_the_sides_gives_left() {
    assert_eq!(CubeSide::from_primitive(6), CubeSide::LEFT);
    assert_eq!(CubeSide::from_primitive(7), CubeSide::LEFT);
    assert_eq!(CubeSide::from_primitive(usize::MAX), CubeSide::LEFT);
}

#[test]
fn normals_point_out_of_each_side() {
    assert_eq!(get_normal(CubeSide::LEFT), IVec3 { x: -1, y: 0, z: 0 });
    assert_eq!(get_normal(CubeSide::RIGHT), IVec3 { x: 1, y: 0, z: 0 });
    assert_eq!(get_normal(CubeSide::BOTTOM), IVec3 { x: 0, y: -1, z: 0 });
    assert_eq!(get_normal(CubeSide::TOP), IVec3 { x: 0, y: 1, z: 0 });
    assert_eq!(get_normal(CubeSide::BACK), IVec3 { x: 0, y: 0, z: -1 });
    assert_eq!(get_normal(CubeSide::FRONT), IVec3 { x: 0, y: 0, z: 1 });
}

#[test]
fn neighbours_lie_one_step_along_the_normals() {
    let neighbours = Cube::get_neighbors();
    assert_eq!(neighbours.len(), 6);
    for (n, side) in SIDES.iter().enumerate() {
        assert_eq!(neighbours[n], get_normal(*side));
    }
}

#[test]
fn side_templates_hold_the_fixed_offsets() {
    assert_eq!(
        Cube::get_side(CubeSide::LEFT),
        [0, 0, 1, 0, 0, 0, 0, 1, 0, 0, 1, 0, 0, 1, 1, 0, 0, 1]
    );
    assert_eq!(
        Cube::get_side(CubeSide::RIGHT),
        [1, 0, 0, 1, 0, 1, 1, 1, 1, 1, 1, 1, 1, 1, 0, 1, 0, 0]
    );
    assert_eq!(
        Cube::get_side(CubeSide::BOTTOM),
        [0, 0, 1, 1, 0, 1, 1, 0, 0, 1, 0, 0, 0, 0, 0, 0, 0, 1]
    );
    assert_eq!(
        Cube::get_side(CubeSide::TOP),
        [0, 1, 0, 1, 1, 0, 1, 1, 1, 1, 1, 1, 0, 1, 1, 0, 1, 0]
    );
    assert_eq!(
        Cube::get_side(CubeSide::BACK),
        [0, 0, 0, 1, 0, 0, 1, 1, 0, 1, 1, 0, 0, 1, 0, 0, 0, 0]
    );
    assert_eq!(
        Cube::get_side(CubeSide::FRONT),
        [1, 0, 1, 0, 0, 1, 0, 1, 1, 0, 1, 1, 1, 1, 1, 1, 0, 1]
    );
}

#[test]
fn side_vertices_lie_on_the_face_of_the_side() {
    for side in SIDES {
        let normal = get_normal(side);
        let template = Cube::get_side(side);
        for t in 0..6 {
            let v = [template[3 * t] as i32, template[3 * t + 1] as i32, template[3 * t + 2] as i32];
            let along = [normal.x, normal.y, normal.z];
            for axis in 0..3 {
                assert!(v[axis] == 0 || v[axis] == 1);
                if along[axis] == 1 {
                    assert_eq!(v[axis], 1);
                }
                if along[axis] == -1 {
                    assert_eq!(v[axis], 0);
                }
            }
        }
    }
}

#[test]
fn vertices_with_the_same_corner_share_a_position() {
    let corners: Vec<u8> = (0..6).map(vertex_corner).collect();
    assert_eq!(corners, vec![0, 1, 2, 2, 3, 0]);
    for side in SIDES {
        let template = Cube::get_side(side);
        for a in 0..6 {
            for b in 0..6 {
                let same_corner = corners[a] == corners[b];
                let same_position = template[3 * a..3 * a + 3] == template[3 * b..3 * b + 3];
                assert_eq!(same_corner, same_position);
            }
        }
    }
}

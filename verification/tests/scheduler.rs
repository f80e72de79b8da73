use voxel_terrain::blocks::AtlasCell;
use voxel_terrain::mesher::{CollisionMesh, GeneratedMesh, MeshError, TexCoord, Triangle};
use voxel_terrain::scheduler::{
    handle_completed_chunks, remesh_chunks, ChunkGeometry, ChunkState, ChunkWorld, Completion, MeshJob,
};
use voxel_terrain::vector::{IVec2, IVec3};

fn geometry(tag: i32) -> ChunkGeometry {
    let p = IVec3 { x: tag, y: 0, z: 0 };
    let uv = TexCoord { cell: AtlasCell { column: 0, row: 0 }, corner: 0 };
    ChunkGeometry {
        mesh: GeneratedMesh {
            positions: vec![p, p, p],
            uvs: vec![uv, uv, uv],
            normals: vec![p, p, p],
            indices: vec![2, 1, 0],
        },
        shape: CollisionMesh { vertices: vec![p, p, p], triangles: vec![Triangle { a: 2, b: 1, c: 0 }] },
    }
}

fn tag_of(world: &ChunkWorld, entity: usize) -> Option<i32> {
    world.geometry_of(entity).map(|g| g.mesh.positions[0].x)
}

fn built(entity: usize, tag: i32) -> Completion {
    Completion { entity, built: Ok(geometry(tag)) }
}

fn has_marker(state: ChunkState) -> bool {
    state != ChunkState::Idle
}

fn has_task(state: ChunkState) -> bool {
    state == ChunkState::Building
}

#[test]
fn a_new_chunk_waits_for_its_first_build() {
    let mut world = ChunkWorld::new();
    assert_eq!(world.len(), 0);
    let a = world.spawn_chunk(IVec3 { x: 0, y: 0, z: 0 });
    let b = world.spawn_chunk(IVec3 { x: 16, y: 0, z: 0 });
    assert_eq!((a, b), (0, 1));
    assert_eq!(world.len(), 2);
    assert_eq!(world.state(a), Some(ChunkState::RebuildRequested));
    assert_eq!(world.state(b), Some(ChunkState::RebuildRequested));
    assert_eq!(world.state(2), None);
    assert!(world.geometry_of(a).is_none());
    assert_eq!(world.position(b), IVec3 { x: 16, y: 0, z: 0 });
}

#[test]
fn the_scheduler_starts_one_task_for_each_marked_chunk() {
    let mut world = ChunkWorld::new();
    world.spawn_chunk(IVec3 { x: 0, y: 0, z: 0 });
    world.spawn_chunk(IVec3 { x: 16, y: 0, z: -1 });
    world.spawn_chunk(IVec3 { x: -16, y: 7, z: 47 });
    let jobs = remesh_chunks(&mut world);
    assert_eq!(
        jobs,
        vec![
            MeshJob { entity: 0, chunk: IVec2 { x: 0, y: 0 } },
            MeshJob { entity: 1, chunk: IVec2 { x: 1, y: -1 } },
            MeshJob { entity: 2, chunk: IVec2 { x: -1, y: 2 } },
        ]
    );
    for entity in 0..3 {
        assert_eq!(world.state(entity), Some(ChunkState::Building));
    }
}

#[test]
fn a_building_chunk_is_not_scheduled_again() {
    let mut world = ChunkWorld::new();
    world.spawn_chunk(IVec3 { x: 0, y: 0, z: 0 });
    assert_eq!(remesh_chunks(&mut world).len(), 1);
    assert!(remesh_chunks(&mut world).is_empty());
    // Marked again while it builds: the task in flight stays the only one.
    world.request_rebuild(0);
    assert_eq!(world.state(0), Some(ChunkState::Building));
    assert!(remesh_chunks(&mut world).is_empty());
    assert_eq!(world.state(0), Some(ChunkState::Building));
}

#[test]
fn an_idle_chunk_is_passed_over() {
    let mut world = ChunkWorld::new();
    world.spawn_chunk(IVec3 { x: 0, y: 0, z: 0 });
    world.spawn_chunk(IVec3 { x: 32, y: 0, z: 0 });
    remesh_chunks(&mut world);
    handle_completed_chunks(&mut world, vec![built(0, 1)]);
    assert_eq!(world.state(0), Some(ChunkState::Idle));
    assert!(remesh_chunks(&mut world).is_empty());
    world.request_rebuild(0);
    assert_eq!(world.state(0), Some(ChunkState::RebuildRequested));
    assert_eq!(remesh_chunks(&mut world), vec![MeshJob { entity: 0, chunk: IVec2 { x: 0, y: 0 } }]);
}

#[test]
fn a_finished_task_swaps_the_geometry_and_clears_marker_and_task() {
    let mut world = ChunkWorld::new();
    world.spawn_chunk(IVec3 { x: 0, y: 0, z: 0 });
    remesh_chunks(&mut world);
    handle_completed_chunks(&mut world, vec![built(0, 11)]);
    assert_eq!(world.state(0), Some(ChunkState::Idle));
    assert_eq!(tag_of(&world, 0), Some(11));
    world.request_rebuild(0);
    remesh_chunks(&mut world);
    assert_eq!(tag_of(&world, 0), Some(11));
    handle_completed_chunks(&mut world, vec![built(0, 12)]);
    assert_eq!(tag_of(&world, 0), Some(12));
    assert_eq!(world.state(0), Some(ChunkState::Idle));
}

#[test]
fn a_failed_build_keeps_the_old_geometry() {
    let mut world = ChunkWorld::new();
    world.spawn_chunk(IVec3 { x: 0, y: 0, z: 0 });
    remesh_chunks(&mut world);
    handle_completed_chunks(&mut world, vec![built(0, 5)]);
    world.request_rebuild(0);
    remesh_chunks(&mut world);
    let failed = Completion { entity: 0, built: Err(MeshError::EmptyGeometry) };
    handle_completed_chunks(&mut world, vec![failed]);
    assert_eq!(world.state(0), Some(ChunkState::Idle));
    assert_eq!(tag_of(&world, 0), Some(5));
    // The chunk can be rebuilt later.
    world.request_rebuild(0);
    assert_eq!(remesh_chunks(&mut world).len(), 1);
}

#[test]
fn a_completion_that_no_chunk_waits_for_is_dropped() {
    let mut world = ChunkWorld::new();
    world.spawn_chunk(IVec3 { x: 0, y: 0, z: 0 });
    world.spawn_chunk(IVec3 { x: 16, y: 0, z: 0 });
    // Entity 0 is marked but has no task; entity 9 does not exist.
    handle_completed_chunks(&mut world, vec![built(0, 1), built(9, 2)]);
    assert_eq!(world.state(0), Some(ChunkState::RebuildRequested));
    assert!(world.geometry_of(0).is_none());
    assert!(!world.complete_chunk(built(9, 2)));
    remesh_chunks(&mut world);
    assert!(world.complete_chunk(built(1, 3)));
    assert!(!world.complete_chunk(built(1, 4)));
    assert_eq!(tag_of(&world, 1), Some(3));
    assert_eq!(world.state(0), Some(ChunkState::Building));
}

#[test]
fn of_two_completions_for_one_chunk_the_first_counts() {
    let mut world = ChunkWorld::new();
    world.spawn_chunk(IVec3 { x: 0, y: 0, z: 0 });
    remesh_chunks(&mut world);
    handle_completed_chunks(&mut world, vec![built(0, 1), built(0, 2)]);
    assert_eq!(tag_of(&world, 0), Some(1));
    assert_eq!(world.state(0), Some(ChunkState::Idle));
}

#[test]
fn tasks_may_end_in_any_order() {
    let mut world = ChunkWorld::new();
    for n in 0..4 {
        world.spawn_chunk(IVec3 { x: 16 * n, y: 0, z: 0 });
    }
    remesh_chunks(&mut world);
    handle_completed_chunks(&mut world, vec![built(3, 30), built(1, 10)]);
    assert_eq!(world.state(0), Some(ChunkState::Building));
    assert_eq!(world.state(1), Some(ChunkState::Idle));
    assert_eq!(world.state(2), Some(ChunkState::Building));
    assert_eq!(world.state(3), Some(ChunkState::Idle));
    assert_eq!(tag_of(&world, 1), Some(10));
    assert_eq!(tag_of(&world, 3), Some(30));
    handle_completed_chunks(&mut world, Vec::new());
    assert_eq!(world.state(0), Some(ChunkState::Building));
}

#[test]
fn a_task_exists_only_with_a_marker_through_every_step() {
    let mut world = ChunkWorld::new();
    for n in 0..3 {
        world.spawn_chunk(IVec3 { x: 16 * n, y: 0, z: 0 });
    }
    let check = |world: &ChunkWorld| {
        for entity in 0..world.len() {
            let state = world.state(entity).unwrap();
            assert!(!has_task(state) || has_marker(state));
        }
    };
    check(&world);
    let mut started = vec![0usize; 3];
    for round in 0..5 {
        let entity = round % 3;
        world.request_rebuild(entity);
        check(&world);
        for job in remesh_chunks(&mut world) {
            assert_eq!(world.state(job.entity), Some(ChunkState::Building));
            started[job.entity] += 1;
        }
        check(&world);
        assert_eq!(world.state(entity), Some(ChunkState::Building));
        handle_completed_chunks(&mut world, vec![built(entity, round as i32)]);
        check(&world);
        assert_eq!(world.state(entity), Some(ChunkState::Idle));
    }
    // All three were built at first; two of them were marked once more.
    assert_eq!(started, vec![2, 2, 1]);
}

#[test]
fn marking_where_there_is_no_chunk_changes_nothing() {
    let mut world = ChunkWorld::new();
    world.request_rebuild(0);
    assert_eq!(world.len(), 0);
    world.spawn_chunk(IVec3 { x: 0, y: 0, z: 0 });
    world.request_rebuild(5);
    assert_eq!(world.len(), 1);
    assert_eq!(world.state(0), Some(ChunkState::RebuildRequested));
}

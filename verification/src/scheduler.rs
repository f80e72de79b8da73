//! The rebuild state machine of the chunks: which chunks are handed to the
//! mesher, and what becomes of a chunk when its mesh comes back.

use vstd::prelude::*;
use crate::mesher::{CollisionMesh, GeneratedMesh, MeshError};
use crate::vector::{chunk_of, spot_to_chunk_pos, IVec2, IVec3};

verus! {

/// Where a chunk stands between two rebuilds of its geometry.
#[derive(Clone, Copy, Debug, PartialEq, Eq, Structural)]
pub enum ChunkState {
    /// The geometry is up to date: no marker, no task.
    Idle,
    /// The geometry is stale and no task builds it yet: marker, no task.
    RebuildRequested,
    /// A task builds the geometry: marker and task.
    Building,
}

/// What a rebuild makes: the mesh and the shape to collide with.
#[derive(Debug)]
pub struct ChunkGeometry {
    pub mesh: GeneratedMesh,
    pub shape: CollisionMesh,
}

/// A meshing task to start: the chunk entity and the chunk it stands in.
#[derive(Clone, Copy, Debug, PartialEq, Eq, Structural)]
pub struct MeshJob {
    pub entity: usize,
    pub chunk: IVec2,
}

/// A meshing task that has ended, with what it built.
#[derive(Debug)]
pub struct Completion {
    pub entity: usize,
    pub built: Result<ChunkGeometry, MeshError>,
}

/// The chunk entities, each with its position in the world, its state and the
/// geometry it is shown with. An entity is named by its place.
pub struct ChunkWorld {
    positions: Vec<IVec3>,
    states: Vec<ChunkState>,
    geometry: Vec<Option<ChunkGeometry>>,
}

impl ChunkState {
    /// Whether the chunk carries the marker that asks for a rebuild.
    pub open spec fn has_marker(self) -> bool {
        self != ChunkState::Idle
    }

    /// Whether a task is building the chunk.
    pub open spec fn has_task(self) -> bool {
        self == ChunkState::Building
    }

    /// The state after a rebuild was asked for: an idle chunk is marked, and
    /// a marked one stays as it is, with its task if it has one.
    pub open spec fn marked(self) -> ChunkState {
        if self == ChunkState::Idle {
            ChunkState::RebuildRequested
        } else {
            self
        }
    }

    /// The state after a pass of the scheduler: a marked chunk without a task
    /// gets one.
    pub open spec fn scheduled(self) -> ChunkState {
        if self == ChunkState::RebuildRequested {
            ChunkState::Building
        } else {
            self
        }
    }

    /// The state after the chunk's task has ended: marker and task are gone.
    pub open spec fn completed(self) -> ChunkState {
        if self == ChunkState::Building {
            ChunkState::Idle
        } else {
            self
        }
    }

    /// The steps of the state machine: a chunk stays as it is, or goes from
    /// idle to marked, from marked to building, or from building to idle.
    pub open spec fn steps_to(self, next: ChunkState) -> bool {
        ||| next == self
        ||| (self == ChunkState::Idle && next == ChunkState::RebuildRequested)
        ||| (self == ChunkState::RebuildRequested && next == ChunkState::Building)
        ||| (self == ChunkState::Building && next == ChunkState::Idle)
    }
}

/// Whether the task of a completion is the one that its chunk waits for: the
/// entity exists and is building.
pub open spec fn awaited(states: Seq<ChunkState>, done: Completion) -> bool {
    done.entity < states.len() && states[done.entity as int] == ChunkState::Building
}

/// The states after one completion: the awaited chunk becomes idle, and a
/// completion that no chunk waits for changes nothing.
pub open spec fn states_after_one(states: Seq<ChunkState>, done: Completion) -> Seq<ChunkState> {
    if awaited(states, done) {
        states.update(done.entity as int, ChunkState::Idle)
    } else {
        states
    }
}

/// The geometry after one completion: what an awaited task built takes the
/// place of the chunk's geometry; a task that built nothing, or that no chunk
/// waits for, changes nothing.
pub open spec fn geometry_after_one(
    states: Seq<ChunkState>,
    geometry: Seq<Option<ChunkGeometry>>,
    done: Completion,
) -> Seq<Option<ChunkGeometry>> {
    if awaited(states, done) && done.built.is_ok() {
        geometry.update(done.entity as int, Some(done.built.unwrap()))
    } else {
        geometry
    }
}

/// The states after the first `n` of a list of completions, taken in order.
pub open spec fn states_after(states: Seq<ChunkState>, finished: Seq<Completion>, n: int) -> Seq<ChunkState>
    decreases n,
{
    if n <= 0 {
        states
    } else {
        states_after_one(states_after(states, finished, n - 1), finished[n - 1])
    }
}

/// The geometry after the first `n` of a list of completions, taken in order.
pub open spec fn geometry_after(
    states: Seq<ChunkState>,
    geometry: Seq<Option<ChunkGeometry>>,
    finished: Seq<Completion>,
    n: int,
) -> Seq<Option<ChunkGeometry>>
    decreases n,
{
    if n <= 0 {
        geometry
    } else {
        geometry_after_one(
            states_after(states, finished, n - 1),
            geometry_after(states, geometry, finished, n - 1),
            finished[n - 1],
        )
    }
}

/// The job of a chunk entity: its place, and the chunk that its position
/// lies in.
pub open spec fn job_of(entity: int, position: IVec3) -> MeshJob {
    MeshJob {
        entity: entity as usize,
        chunk: IVec2 { x: chunk_of(position).0 as i32, y: chunk_of(position).1 as i32 },
    }
}

/// The jobs that a pass of the scheduler starts among the first `n` entities:
/// one for each that is marked and has no task, in the order of the entities.
pub open spec fn jobs_upto(positions: Seq<IVec3>, states: Seq<ChunkState>, n: int) -> Seq<MeshJob>
    decreases n,
{
    if n <= 0 {
        Seq::empty()
    } else if states[n - 1] == ChunkState::RebuildRequested {
        jobs_upto(positions, states, n - 1).push(job_of(n - 1, positions[n - 1]))
    } else {
        jobs_upto(positions, states, n - 1)
    }
}

impl ChunkWorld {
    /// The positions of the entities.
    pub closed spec fn positions(self) -> Seq<IVec3> {
        self.positions@
    }

    /// The states of the entities.
    pub closed spec fn states(self) -> Seq<ChunkState> {
        self.states@
    }

    /// The geometry of the entities.
    pub closed spec fn geometry(self) -> Seq<Option<ChunkGeometry>> {
        self.geometry@
    }

    /// Every entity has a position, a state and a place for its geometry.
    pub open spec fn wf(self) -> bool {
        self.positions().len() == self.states().len() && self.geometry().len() == self.states().len()
    }

    /// The number of entities.
    pub open spec fn count(self) -> int {
        self.states().len() as int
    }

    /// A world without a chunk.
    pub fn new() -> (world: ChunkWorld)
        ensures
            world.wf(),
            world.count() == 0,
    {
        ChunkWorld { positions: Vec::new(), states: Vec::new(), geometry: Vec::new() }
    }

    /// Adds a chunk entity at a position of the world. It has no geometry and
    /// waits for its first build.
    pub fn spawn_chunk(&mut self, position: IVec3) -> (entity: usize)
        requires
            old(self).wf(),
        ensures
            final(self).wf(),
            entity == old(self).count(),
            final(self).positions() == old(self).positions().push(position),
            final(self).states() == old(self).states().push(ChunkState::RebuildRequested),
            final(self).geometry() == old(self).geometry().push(None),
    {
        let entity = self.states.len();
        self.positions.push(position);
        self.states.push(ChunkState::RebuildRequested);
        self.geometry.push(None);
        entity
    }

    /// The number of entities.
    pub fn len(&self) -> (count: usize)
        ensures
            count == self.count(),
    {
        self.states.len()
    }

    /// The state of an entity, or `None` where there is no such entity.
    pub fn state(&self, entity: usize) -> (state: Option<ChunkState>)
        ensures
            state == if entity < self.count() {
                Some(self.states()[entity as int])
            } else {
                None
            },
    {
        if entity < self.states.len() {
            Some(self.states[entity])
        } else {
            None
        }
    }

    /// The geometry that an entity is shown with, or `None` where it has none
    /// or there is no such entity.
    pub fn geometry_of(&self, entity: usize) -> (shown: Option<&ChunkGeometry>)
        requires
            self.wf(),
        ensures
            entity < self.count() ==> match shown {
                Some(geometry) => self.geometry()[entity as int] == Some(*geometry),
                None => self.geometry()[entity as int].is_none(),
            },
            entity >= self.count() ==> shown.is_none(),
    {
        if entity < self.geometry.len() {
            self.geometry[entity].as_ref()
        } else {
            None
        }
    }

    /// Marks a chunk for a rebuild. A chunk that is marked already, building
    /// or not, stays as it is; so does the world where there is no such
    /// entity.
    pub fn request_rebuild(&mut self, entity: usize)
        requires
            old(self).wf(),
        ensures
            final(self).wf(),
            final(self).positions() == old(self).positions(),
            final(self).geometry() == old(self).geometry(),
            final(self).states() == if entity < old(self).count() {
                old(self).states().update(entity as int, old(self).states()[entity as int].marked())
            } else {
                old(self).states()
            },
    {
        if entity < self.states.len() {
            match self.states[entity] {
                ChunkState::Idle => {
                    self.states.set(entity, ChunkState::RebuildRequested);
                },
                _ => {
                    assert(self.states@ =~= self.states@.update(entity as int, self.states@[entity as int]));
                },
            }
        }
    }

    /// Takes in what one task built. Where the entity is building, it becomes
    /// idle, and what was built, if anything, becomes its geometry; where it
    /// is not, or there is no such entity, the completion is dropped.
    pub fn complete_chunk(&mut self, done: Completion) -> (taken: bool)
        requires
            old(self).wf(),
        ensures
            final(self).wf(),
            taken == awaited(old(self).states(), done),
            final(self).positions() == old(self).positions(),
            final(self).states() == states_after_one(old(self).states(), done),
            final(self).geometry() == geometry_after_one(old(self).states(), old(self).geometry(), done),
    {
        let entity = done.entity;
        if entity >= self.states.len() {
            return false;
        }
        match self.states[entity] {
            ChunkState::Building => {
                self.states.set(entity, ChunkState::Idle);
                match done.built {
                    Ok(geometry) => {
                        self.geometry.set(entity, Some(geometry));
                    },
                    Err(_) => {},
                }
                true
            },
            _ => false,
        }
    }
}

/// One pass of the scheduler: every chunk that is marked and has no task is
/// given one. The jobs to start come back, one for each such chunk; a chunk
/// that is building already is passed over.
pub fn remesh_chunks(world: &mut ChunkWorld) -> (jobs: Vec<MeshJob>)
    requires
        old(world).wf(),
    ensures
        final(world).wf(),
        final(world).positions() == old(world).positions(),
        final(world).geometry() == old(world).geometry(),
        final(world).count() == old(world).count(),
        forall|e: int|
            0 <= e < old(world).count() ==> #[trigger] final(world).states()[e] == old(world).states()[e].scheduled(),
        jobs@ == jobs_upto(old(world).positions(), old(world).states(), old(world).count()),
{
    let count = world.len();
    let mut jobs: Vec<MeshJob> = Vec::new();
    let mut entity: usize = 0;
    while entity < count
        invariant
            entity <= count,
            count == old(world).count(),
            world.count() == count,
            world.wf(),
            world.positions() == old(world).positions(),
            world.geometry() == old(world).geometry(),
            forall|e: int| 0 <= e < entity ==> #[trigger] world.states()[e] == old(world).states()[e].scheduled(),
            forall|e: int| entity <= e < count ==> #[trigger] world.states()[e] == old(world).states()[e],
            jobs@ == jobs_upto(old(world).positions(), old(world).states(), entity as int),
        decreases count - entity,
    {
        if world.start_task(entity) {
            let position = world.position(entity);
            jobs.push(MeshJob { entity, chunk: spot_to_chunk_pos(&position) });
        }
        entity = entity + 1;
    }
    jobs
}

impl ChunkWorld {
    /// The position of an entity.
    pub fn position(&self, entity: usize) -> (position: IVec3)
        requires
            self.wf(),
            entity < self.count(),
        ensures
            position == self.positions()[entity as int],
    {
        self.positions[entity]
    }

    /// Gives an entity its task where it is marked and has none, and says
    /// whether it did.
    fn start_task(&mut self, entity: usize) -> (started: bool)
        requires
            old(self).wf(),
            entity < old(self).count(),
        ensures
            final(self).wf(),
            started == (old(self).states()[entity as int] == ChunkState::RebuildRequested),
            final(self).positions() == old(self).positions(),
            final(self).geometry() == old(self).geometry(),
            final(self).states() == old(self).states().update(
                entity as int,
                old(self).states()[entity as int].scheduled(),
            ),
    {
        match self.states[entity] {
            ChunkState::RebuildRequested => {
                self.states.set(entity, ChunkState::Building);
                true
            },
            _ => {
                assert(self.states@ =~= self.states@.update(entity as int, self.states@[entity as int]));
                false
            },
        }
    }
}

/// Takes in the tasks that have ended, in the order given: each awaited one
/// makes its chunk idle and, where it built something, replaces the chunk's
/// geometry; the others are dropped.
pub fn handle_completed_chunks(world: &mut ChunkWorld, finished: Vec<Completion>)
    requires
        old(world).wf(),
    ensures
        final(world).wf(),
        final(world).positions() == old(world).positions(),
        final(world).states() == states_after(old(world).states(), finished@, finished@.len() as int),
        final(world).geometry() == geometry_after(
            old(world).states(),
            old(world).geometry(),
            finished@,
            finished@.len() as int,
        ),
{
    let ghost all = finished@;
    for done in it: finished
        invariant
            it.seq() == all,
            world.wf(),
            world.positions() == old(world).positions(),
            world.states() == states_after(old(world).states(), all, it.index() as int),
            world.geometry() == geometry_after(old(world).states(), old(world).geometry(), all, it.index() as int),
    {
        world.complete_chunk(done);
    }
}

/// A chunk has a task only while it carries the marker, whatever its state.
pub proof fn lemma_task_implies_marker(state: ChunkState)
    ensures
        state.has_task() ==> state.has_marker(),
{
}

/// Marking, scheduling and completing are steps of the state machine, and
/// none of them gives a chunk a task that has one: only scheduling starts a
/// task, and only for a marked chunk without one.
pub proof fn lemma_operations_are_steps(state: ChunkState)
    ensures
        state.steps_to(state.marked()),
        state.steps_to(state.scheduled()),
        state.steps_to(state.completed()),
        state.has_task() ==> state.marked() == state && state.scheduled() == state,
        state.scheduled().has_task() && !state.has_task() ==> state == ChunkState::RebuildRequested,
        !state.completed().has_task(),
        state.has_task() ==> !state.completed().has_marker(),
{
}

/// A pass of the scheduler starts at most one task for a chunk, and none for
/// a chunk that has one: the jobs name entities in rising order, and each
/// named entity was marked and had no task.
pub proof fn lemma_jobs_are_distinct(positions: Seq<IVec3>, states: Seq<ChunkState>, n: int)
    requires
        0 <= n <= states.len(),
        n <= usize::MAX,
    ensures
        jobs_upto(positions, states, n).len() <= n,
        forall|a: int|
            0 <= a < jobs_upto(positions, states, n).len() ==> {
                let entity = (#[trigger] jobs_upto(positions, states, n)[a]).entity as int;
                &&& 0 <= entity < n
                &&& states[entity] == ChunkState::RebuildRequested
                &&& !states[entity].has_task()
            },
        forall|a: int, b: int|
            0 <= a < b < jobs_upto(positions, states, n).len() ==> (#[trigger] jobs_upto(
                positions,
                states,
                n,
            )[a]).entity < (#[trigger] jobs_upto(positions, states, n)[b]).entity,
    decreases n,
{
    if n > 0 {
        lemma_jobs_are_distinct(positions, states, n - 1);
    }
}

/// Completions only end tasks: after any number of them every chunk is as it
/// was, or it was building and is idle; and only a chunk that was building
/// has other geometry than before.
pub proof fn lemma_completions_only_end_tasks(
    states: Seq<ChunkState>,
    geometry: Seq<Option<ChunkGeometry>>,
    finished: Seq<Completion>,
    n: int,
)
    requires
        0 <= n <= finished.len(),
        geometry.len() == states.len(),
    ensures
        states_after(states, finished, n).len() == states.len(),
        geometry_after(states, geometry, finished, n).len() == states.len(),
        forall|e: int|
            0 <= e < states.len() ==> {
                let after = #[trigger] states_after(states, finished, n)[e];
                after == states[e] || (states[e] == ChunkState::Building && after == ChunkState::Idle)
            },
        forall|e: int|
            0 <= e < states.len() && states[e] != ChunkState::Building ==> #[trigger] geometry_after(
                states,
                geometry,
                finished,
                n,
            )[e] == geometry[e],
    decreases n,
{
    if n > 0 {
        lemma_completions_only_end_tasks(states, geometry, finished, n - 1);
        let before = states_after(states, finished, n - 1);
        let after = states_after(states, finished, n);
        assert forall|e: int| 0 <= e < states.len() implies {
            let now = #[trigger] states_after(states, finished, n)[e];
            now == states[e] || (states[e] == ChunkState::Building && now == ChunkState::Idle)
        } by {
            assert(before[e] == states[e] || (states[e] == ChunkState::Building && before[e]
                == ChunkState::Idle));
        }
        assert forall|e: int|
            0 <= e < states.len() && states[e] != ChunkState::Building implies #[trigger] geometry_after(
            states,
            geometry,
            finished,
            n,
        )[e] == geometry[e] by {
            assert(before[e] == states[e]);
            assert(geometry_after(states, geometry, finished, n - 1)[e] == geometry[e]);
        }
    }
}

} // verus!

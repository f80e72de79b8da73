//! The block values of one chunk and of the ring of voxels around it.

use vstd::prelude::*;

verus! {

/// The number of voxels along x and z: the chunk's width and one on each side.
pub const SPAN: usize = 18;

/// The number of voxels along y: the chunk's height and one on each end.
pub const RISE: usize = 258;

/// The number of voxels of a grid.
pub const CELLS: usize = 83592;

/// The block values of a chunk and of its neighbours' nearest voxels, by
/// position relative to the chunk's origin: x and z from -1 to 16, y from -1
/// to 256.
pub struct VoxelGrid {
    cells: Vec<u32>,
}

/// Whether a position relative to the chunk's origin lies in the grid.
pub open spec fn in_grid(x: int, y: int, z: int) -> bool {
    -1 <= x <= 16 && -1 <= y <= 256 && -1 <= z <= 16
}

/// Whether a position relative to the chunk's origin lies in the chunk.
pub open spec fn in_chunk(x: int, y: int, z: int) -> bool {
    0 <= x < 16 && 0 <= y < 256 && 0 <= z < 16
}

/// The place of a position in the grid's storage.
pub open spec fn cell_index(x: int, y: int, z: int) -> int {
    ((x + 1) * 18 + (z + 1)) * 258 + (y + 1)
}

impl VoxelGrid {
    /// The stored values, by `cell_index`.
    pub closed spec fn cells(self) -> Seq<u32> {
        self.cells@
    }

    /// The grid holds a value for every position.
    pub open spec fn wf(self) -> bool {
        self.cells().len() == CELLS
    }

    /// The block value at a position.
    pub open spec fn value_at(self, x: int, y: int, z: int) -> u32
        recommends
            in_grid(x, y, z),
    {
        self.cells()[cell_index(x, y, z)]
    }

    /// A grid with the same value everywhere.
    pub fn new(fill: u32) -> (grid: VoxelGrid)
        ensures
            grid.wf(),
            forall|x: int, y: int, z: int| in_grid(x, y, z) ==> #[trigger] grid.value_at(x, y, z) == fill,
    {
        let mut cells: Vec<u32> = Vec::new();
        let mut n: usize = 0;
        while n < CELLS
            invariant
                n <= CELLS,
                cells@.len() == n,
                forall|m: int| 0 <= m < n ==> cells@[m] == fill,
            decreases CELLS - n,
        {
            cells.push(fill);
            n = n + 1;
        }
        VoxelGrid { cells }
    }

    /// The block value at a position of the grid.
    pub fn get(&self, x: i32, y: i32, z: i32) -> (value: u32)
        requires
            self.wf(),
            in_grid(x as int, y as int, z as int),
        ensures
            value == self.value_at(x as int, y as int, z as int),
    {
        let at: usize = (((x + 1) * 18 + (z + 1)) * 258 + (y + 1)) as usize;
        self.cells[at]
    }

    /// Stores a block value at a position of the grid; every other position
    /// keeps its value.
    pub fn set(&mut self, x: i32, y: i32, z: i32, value: u32)
        requires
            old(self).wf(),
            in_grid(x as int, y as int, z as int),
        ensures
            final(self).wf(),
            final(self).value_at(x as int, y as int, z as int) == value,
            forall|a: int, b: int, c: int|
                in_grid(a, b, c) && !(a == x && b == y && c == z) ==> #[trigger] final(self).value_at(
                    a,
                    b,
                    c,
                ) == old(self).value_at(a, b, c),
    {
        let at: usize = (((x + 1) * 18 + (z + 1)) * 258 + (y + 1)) as usize;
        self.cells.set(at, value);
    }
}

} // verus!

//! The six faces of a unit cube: their order, their outward normals, the
//! offsets to the neighbouring voxels and the two triangles that draw each.

use vstd::prelude::*;
use crate::vector::IVec3;

verus! {

/// One of the six face directions of a voxel. The order of the variants is the
/// order in which the faces of a voxel are visited.
#[derive(Clone, Copy, Debug, PartialEq, Eq, Structural)]
pub enum CubeSide {
    LEFT,
    RIGHT,
    BOTTOM,
    TOP,
    BACK,
    FRONT,
}

/// The unit cube that every voxel is drawn as.
pub struct Cube {}

/// Which corner of the face's quad each of the six emitted vertices is: two
/// triangles, (0, 1, 2) and (2, 3, 0).
pub open spec fn corner_of_vertex(t: int) -> int {
    if t == 0 {
        0
    } else if t == 1 {
        1
    } else if t == 2 {
        2
    } else if t == 3 {
        2
    } else if t == 4 {
        3
    } else {
        0
    }
}

/// The outward unit normal of a side.
pub open spec fn normal_of(side: CubeSide) -> IVec3 {
    match side {
        CubeSide::LEFT => IVec3 { x: -1i32, y: 0, z: 0 },
        CubeSide::RIGHT => IVec3 { x: 1, y: 0, z: 0 },
        CubeSide::BOTTOM => IVec3 { x: 0, y: -1i32, z: 0 },
        CubeSide::TOP => IVec3 { x: 0, y: 1, z: 0 },
        CubeSide::BACK => IVec3 { x: 0, y: 0, z: -1i32 },
        CubeSide::FRONT => IVec3 { x: 0, y: 0, z: 1 },
    }
}

/// The four corners of a side's quad, as offsets from the voxel's minimum
/// corner, in the order in which the triangles walk them.
pub open spec fn quad_corner(side: CubeSide, c: int) -> (int, int, int) {
    match side {
        CubeSide::LEFT => if c == 0 {
            (0, 0, 1)
        } else if c == 1 {
            (0, 0, 0)
        } else if c == 2 {
            (0, 1, 0)
        } else {
            (0, 1, 1)
        },
        CubeSide::RIGHT => if c == 0 {
            (1, 0, 0)
        } else if c == 1 {
            (1, 0, 1)
        } else if c == 2 {
            (1, 1, 1)
        } else {
            (1, 1, 0)
        },
        CubeSide::BOTTOM => if c == 0 {
            (0, 0, 1)
        } else if c == 1 {
            (1, 0, 1)
        } else if c == 2 {
            (1, 0, 0)
        } else {
            (0, 0, 0)
        },
        CubeSide::TOP => if c == 0 {
            (0, 1, 0)
        } else if c == 1 {
            (1, 1, 0)
        } else if c == 2 {
            (1, 1, 1)
        } else {
            (0, 1, 1)
        },
        CubeSide::BACK => if c == 0 {
            (0, 0, 0)
        } else if c == 1 {
            (1, 0, 0)
        } else if c == 2 {
            (1, 1, 0)
        } else {
            (0, 1, 0)
        },
        CubeSide::FRONT => if c == 0 {
            (1, 0, 1)
        } else if c == 1 {
            (0, 0, 1)
        } else if c == 2 {
            (0, 1, 1)
        } else {
            (1, 1, 1)
        },
    }
}

/// The offset of the `t`-th of the six vertices of a side from the voxel's
/// minimum corner.
pub open spec fn side_vertex(side: CubeSide, t: int) -> (int, int, int) {
    quad_corner(side, corner_of_vertex(t))
}

impl CubeSide {
    /// The side that faces the other way.
    pub open spec fn opposite(self) -> CubeSide {
        match self {
            CubeSide::LEFT => CubeSide::RIGHT,
            CubeSide::RIGHT => CubeSide::LEFT,
            CubeSide::BOTTOM => CubeSide::TOP,
            CubeSide::TOP => CubeSide::BOTTOM,
            CubeSide::BACK => CubeSide::FRONT,
            CubeSide::FRONT => CubeSide::BACK,
        }
    }

    /// The position of the side in the visiting order, from 0 to 5.
    pub open spec fn index_spec(self) -> int {
        match self {
            CubeSide::LEFT => 0,
            CubeSide::RIGHT => 1,
            CubeSide::BOTTOM => 2,
            CubeSide::TOP => 3,
            CubeSide::BACK => 4,
            CubeSide::FRONT => 5,
        }
    }

    /// The side at a position of the visiting order; a number past the last
    /// side gives the first one.
    pub open spec fn from_index(n: int) -> CubeSide {
        if n == 1 {
            CubeSide::RIGHT
        } else if n == 2 {
            CubeSide::BOTTOM
        } else if n == 3 {
            CubeSide::TOP
        } else if n == 4 {
            CubeSide::BACK
        } else if n == 5 {
            CubeSide::FRONT
        } else {
            CubeSide::LEFT
        }
    }

    /// The position of the side in the visiting order.
    pub fn index(self) -> (n: usize)
        ensures
            n == self.index_spec(),
            n < 6,
            CubeSide::from_index(n as int) == self,
    {
        match self {
            CubeSide::LEFT => 0,
            CubeSide::RIGHT => 1,
            CubeSide::BOTTOM => 2,
            CubeSide::TOP => 3,
            CubeSide::BACK => 4,
            CubeSide::FRONT => 5,
        }
    }

    /// The side with the given number; any number that names no side gives
    /// `LEFT`.
    pub fn from_primitive(n: usize) -> (side: CubeSide)
        ensures
            side == CubeSide::from_index(n as int),
            n < 6 ==> side.index_spec() == n,
    {
        match n {
            1 => CubeSide::RIGHT,
            2 => CubeSide::BOTTOM,
            3 => CubeSide::TOP,
            4 => CubeSide::BACK,
            5 => CubeSide::FRONT,
            _ => CubeSide::LEFT,
        }
    }
}

/// The outward normal of a side.
pub fn get_normal(side: CubeSide) -> (normal: IVec3)
    ensures
        normal == normal_of(side),
{
    match side {
        CubeSide::LEFT => IVec3 { x: -1, y: 0, z: 0 },
        CubeSide::RIGHT => IVec3 { x: 1, y: 0, z: 0 },
        CubeSide::BOTTOM => IVec3 { x: 0, y: -1, z: 0 },
        CubeSide::TOP => IVec3 { x: 0, y: 1, z: 0 },
        CubeSide::BACK => IVec3 { x: 0, y: 0, z: -1 },
        CubeSide::FRONT => IVec3 { x: 0, y: 0, z: 1 },
    }
}

impl Cube {
    /// The offsets from a voxel to its six neighbours, in the order of the
    /// sides: the neighbour across a side lies one step along its normal.
    pub fn get_neighbors() -> (offsets: [IVec3; 6])
        ensures
            forall|n: int| 0 <= n < 6 ==> #[trigger] offsets@[n] == normal_of(CubeSide::from_index(n)),
    {
        [
            IVec3 { x: -1, y: 0, z: 0 },
            IVec3 { x: 1, y: 0, z: 0 },
            IVec3 { x: 0, y: -1, z: 0 },
            IVec3 { x: 0, y: 1, z: 0 },
            IVec3 { x: 0, y: 0, z: -1 },
            IVec3 { x: 0, y: 0, z: 1 },
        ]
    }

    /// The six vertices of a side, three coordinates each, as offsets from the
    /// voxel's minimum corner.
    pub fn get_side(side: CubeSide) -> (vertices: [u8; 18])
        ensures
            forall|t: int|
                0 <= t < 6 ==> (
                #[trigger] vertices@[3 * t] as int,
                vertices@[3 * t + 1] as int,
                vertices@[3 * t + 2] as int,
            ) == side_vertex(side, t),
    {
        let vertices: [u8; 18] = match side {
            CubeSide::LEFT => [0, 0, 1, 0, 0, 0, 0, 1, 0, 0, 1, 0, 0, 1, 1, 0, 0, 1],
            CubeSide::RIGHT => [1, 0, 0, 1, 0, 1, 1, 1, 1, 1, 1, 1, 1, 1, 0, 1, 0, 0],
            CubeSide::BOTTOM => [0, 0, 1, 1, 0, 1, 1, 0, 0, 1, 0, 0, 0, 0, 0, 0, 0, 1],
            CubeSide::TOP => [0, 1, 0, 1, 1, 0, 1, 1, 1, 1, 1, 1, 0, 1, 1, 0, 1, 0],
            CubeSide::BACK => [0, 0, 0, 1, 0, 0, 1, 1, 0, 1, 1, 0, 0, 1, 0, 0, 0, 0],
            CubeSide::FRONT => [1, 0, 1, 0, 0, 1, 0, 1, 1, 0, 1, 1, 1, 1, 1, 1, 0, 1],
        };
        assert forall|t: int| 0 <= t < 6 implies (
            #[trigger] vertices@[3 * t] as int,
            vertices@[3 * t + 1] as int,
            vertices@[3 * t + 2] as int,
        ) == side_vertex(side, t) by {
            if t == 0 {
            } else if t == 1 {
            } else if t == 2 {
            } else if t == 3 {
            } else if t == 4 {
            } else {
            }
        }
        vertices
    }
}

/// Every vertex of a side lies on the face of the unit cube that the side's
/// normal points out of, and every coordinate is 0 or 1.
pub proof fn lemma_side_vertex_on_face(side: CubeSide, t: int)
    requires
        0 <= t < 6,
    ensures
        0 <= side_vertex(side, t).0 <= 1,
        0 <= side_vertex(side, t).1 <= 1,
        0 <= side_vertex(side, t).2 <= 1,
        normal_of(side).x == 1 ==> side_vertex(side, t).0 == 1,
        normal_of(side).x == -1 ==> side_vertex(side, t).0 == 0,
        normal_of(side).y == 1 ==> side_vertex(side, t).1 == 1,
        normal_of(side).y == -1 ==> side_vertex(side, t).1 == 0,
        normal_of(side).z == 1 ==> side_vertex(side, t).2 == 1,
        normal_of(side).z == -1 ==> side_vertex(side, t).2 == 0,
{
}

/// The normal of the opposite side is the normal turned round.
pub proof fn lemma_opposite_normal(side: CubeSide)
    ensures
        normal_of(side.opposite()).x == -normal_of(side).x,
        normal_of(side.opposite()).y == -normal_of(side).y,
        normal_of(side.opposite()).z == -normal_of(side).z,
        side.opposite().opposite() == side,
{
}

/// A normal is a unit vector along one axis: one component is 1 or -1 and the
/// other two are 0.
pub proof fn lemma_normal_is_axis_unit(side: CubeSide)
    ensures
        normal_of(side).x * normal_of(side).x + normal_of(side).y * normal_of(side).y + normal_of(
            side,
        ).z * normal_of(side).z == 1,
{
}

} // verus!

//! The block table: how a block value splits into id and flags, which blocks
//! let light through, and which cell of the texture atlas each side of a block
//! is drawn with.

use vstd::prelude::*;
use crate::cube::CubeSide;

verus! {

/// A cell of the texture atlas, by column and row.
#[derive(Clone, Copy, Debug, PartialEq, Eq, Structural)]
pub struct AtlasCell {
    pub column: u8,
    pub row: u8,
}

/// What the table holds of one block id.
#[derive(Clone, Copy, Debug)]
pub struct BlockInfo {
    /// The block lets light through.
    pub transparent: bool,
    /// The block lets some light through, and what is behind it is drawn.
    pub semi_transparent: bool,
    /// The atlas cell of each side, in the order of the sides.
    pub cells: [AtlasCell; 6],
}

/// The block table. The row of a block id is `rows[id]`; an id past the last
/// row is an opaque block drawn with the first cell of the atlas.
pub struct Blocks {
    id_mask: u32,
    flag_mask: u32,
    rows: Vec<BlockInfo>,
}

/// The cell that a side is drawn with where the table has no row for the id.
pub open spec fn default_cell() -> AtlasCell {
    AtlasCell { column: 0, row: 0 }
}

impl Blocks {
    /// The bits of a block value that hold the block id.
    pub closed spec fn id_bits(self) -> u32 {
        self.id_mask
    }

    /// The bits of a block value that hold the flags.
    pub closed spec fn flag_bits(self) -> u32 {
        self.flag_mask
    }

    /// The rows of the table, by block id.
    pub closed spec fn rows(self) -> Seq<BlockInfo> {
        self.rows@
    }

    /// The two masks share no bit.
    pub open spec fn wf(self) -> bool {
        self.id_bits() & self.flag_bits() == 0
    }

    /// The block id in a block value.
    pub open spec fn id_of(self, value: u32) -> u32 {
        value & self.id_bits()
    }

    /// The flags in a block value.
    pub open spec fn flags_of(self, value: u32) -> u32 {
        value & self.flag_bits()
    }

    /// Whether the table marks the block as transparent.
    pub open spec fn transparent(self, id: u32) -> bool {
        id < self.rows().len() && self.rows()[id as int].transparent
    }

    /// Whether the table marks the block as semi-transparent.
    pub open spec fn semi_transparent(self, id: u32) -> bool {
        id < self.rows().len() && self.rows()[id as int].semi_transparent
    }

    /// The atlas cell of a side of a block.
    pub open spec fn cell_of(self, id: u32, side: CubeSide) -> AtlasCell {
        if id < self.rows().len() {
            self.rows()[id as int].cells@[side.index_spec()]
        } else {
            default_cell()
        }
    }

    /// A table from its masks and rows, or `None` where the masks share a bit.
    pub fn new(id_mask: u32, flag_mask: u32, rows: Vec<BlockInfo>) -> (table: Option<Blocks>)
        ensures
            table.is_some() <==> id_mask & flag_mask == 0,
            table.is_some() ==> {
                &&& table.unwrap().wf()
                &&& table.unwrap().id_bits() == id_mask
                &&& table.unwrap().flag_bits() == flag_mask
                &&& table.unwrap().rows() == rows@
            },
    {
        if id_mask & flag_mask == 0 {
            Some(Blocks { id_mask, flag_mask, rows })
        } else {
            None
        }
    }

    /// The mask of the block id.
    pub fn block_id_bits(&self) -> (mask: u32)
        ensures
            mask == self.id_bits(),
    {
        self.id_mask
    }

    /// The mask of the flags.
    pub fn block_flag_bits(&self) -> (mask: u32)
        ensures
            mask == self.flag_bits(),
    {
        self.flag_mask
    }

    /// Whether the block lets light through.
    pub fn is_transparent(&self, id: u32) -> (yes: bool)
        ensures
            yes == self.transparent(id),
    {
        let at: usize = id as usize;
        at < self.rows.len() && self.rows[at].transparent
    }

    /// Whether the block lets some light through.
    pub fn is_semi_transparent(&self, id: u32) -> (yes: bool)
        ensures
            yes == self.semi_transparent(id),
    {
        let at: usize = id as usize;
        at < self.rows.len() && self.rows[at].semi_transparent
    }

    /// The atlas cell that a side of a block is drawn with.
    pub fn get_tex_coords(&self, id: u32, side: CubeSide) -> (cell: AtlasCell)
        ensures
            cell == self.cell_of(id, side),
    {
        let at: usize = id as usize;
        if at < self.rows.len() {
            self.rows[at].cells[side.index()]
        } else {
            AtlasCell { column: 0, row: 0 }
        }
    }
}

/// The id and the flags of a block value share no bit, and where the two
/// masks of the table cover the value they make it up.
pub proof fn lemma_id_and_flags_are_disjoint(blocks: Blocks, value: u32)
    requires
        blocks.wf(),
    ensures
        blocks.id_of(value) & blocks.flags_of(value) == 0,
        value & (blocks.id_bits() | blocks.flag_bits()) == value ==> blocks.id_of(value) | blocks.flags_of(
            value,
        ) == value,
{
    let id_mask = blocks.id_bits();
    let flag_mask = blocks.flag_bits();
    assert((value & id_mask) & (value & flag_mask) == 0) by (bit_vector)
        requires
            id_mask & flag_mask == 0,
    ;
    assert(value & (id_mask | flag_mask) == value ==> (value & id_mask) | (value & flag_mask)
        == value) by (bit_vector);
}

} // verus!

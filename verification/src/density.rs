//! The density field's decisions: which block a voxel holds, given the noise
//! readings taken around it.

use vstd::prelude::*;
use crate::reading::{Reading, HALF, ONE, TEN};
use crate::vector::{IVec2, IVec3};

verus! {

/// No block: nothing is drawn and nothing collides.
pub const AIR: u32 = 0;

/// The beach material, which is also every layer of the sand biome.
pub const BEACH: u32 = 1;

/// The liquid that fills open voxels below sea level.
pub const LIQUID: u32 = 2;

/// The default top layer.
pub const SURFACE: u32 = 3;

/// The default layer right under the top layer.
pub const UNDERSURFACE: u32 = 4;

/// The default material deep under the surface.
pub const SUBSURFACE: u32 = 5;

/// The floor of the world.
pub const BEDROCK: u32 = 15;

/// The rare top layer of the default biome.
pub const ALTERNATE_SURFACE: u32 = 34;

/// The ore found deep under the surface.
pub const ORE: u32 = 35;

/// Open voxels below this height hold liquid.
pub const SEA_LEVEL: i32 = 30;

/// A voxel is solid where the density is greater than this.
pub const SOLID_THRESHOLD: i64 = TEN;

/// A voxel is carved out where the cave reading is greater than this.
pub const CAVE_THRESHOLD: i64 = HALF;

/// A deep voxel holds ore where the ore reading is greater than this.
pub const ORE_THRESHOLD: i64 = ONE;

/// What is read from the noise fields to decide the block of one voxel.
#[derive(Clone, Copy, Debug)]
pub struct TerrainProbe {
    /// The biome field over the voxel's column.
    pub biome: Reading,
    /// The biome field at the column's second site.
    pub biome_alt: Reading,
    /// The terrain density at the voxel.
    pub density: Reading,
    /// The terrain density one voxel above.
    pub density_above_one: Reading,
    /// The terrain density five voxels above.
    pub density_above_five: Reading,
    /// The terrain density ten voxels above.
    pub density_above_ten: Reading,
    /// The ore field at the voxel.
    pub ore: Reading,
    /// The cave field at the voxel.
    pub cave: Reading,
    /// The height of the beach line over the voxel: sea level plus its jitter,
    /// cut to an integer.
    pub beach_line: i32,
}

/// Where the noise fields are read for one voxel, besides the voxel itself.
#[derive(Clone, Copy, Debug)]
pub struct ProbeSites {
    /// The column, for the biome field.
    pub biome: IVec2,
    /// The column's second site in the biome field.
    pub biome_alt: IVec2,
    /// One voxel above.
    pub above_one: IVec3,
    /// Five voxels above.
    pub above_five: IVec3,
    /// Ten voxels above.
    pub above_ten: IVec3,
}

/// The block ids that a biome gives to the layers of a column.
#[derive(Clone, Copy, Debug)]
pub struct Palette {
    pub underdirt: u32,
    pub surface: u32,
    pub undersurface: u32,
    pub liquid: u32,
    pub beach: u32,
}

/// Whether a density reading is above the solid threshold.
pub open spec fn is_solid(density: Reading) -> bool {
    density.key > SOLID_THRESHOLD
}

/// The second biome site of a horizontal coordinate.
pub open spec fn alt_site(c: int) -> int {
    c * 20 + 5000
}

/// Whether the second biome site of a coordinate can be computed in `i32`:
/// the scaled coordinate and the shifted one both fit.
pub open spec fn alt_site_fits(c: int) -> bool {
    i32::MIN <= c * 20 && alt_site(c) <= i32::MAX
}

/// Whether every coordinate of the sites around `spot` can be computed in
/// `i32`.
pub open spec fn sites_in_range(spot: IVec3) -> bool {
    &&& alt_site_fits(spot.x as int)
    &&& alt_site_fits(spot.z as int)
    &&& spot.y + 10 <= i32::MAX
}

/// The sites around `spot`.
pub open spec fn sites_of(spot: IVec3) -> ProbeSites
    recommends
        sites_in_range(spot),
{
    ProbeSites {
        biome: IVec2 { x: spot.x, y: spot.z },
        biome_alt: IVec2 { x: alt_site(spot.x as int) as i32, y: alt_site(spot.z as int) as i32 },
        above_one: IVec3 { x: spot.x, y: (spot.y + 1) as i32, z: spot.z },
        above_five: IVec3 { x: spot.x, y: (spot.y + 5) as i32, z: spot.z },
        above_ten: IVec3 { x: spot.x, y: (spot.y + 10) as i32, z: spot.z },
    }
}

/// The layers of the column that the probe was taken in: the sand biome where
/// the biome reading is positive, else the default biome, with the alternate
/// top layer where the reading at the second site is positive.
pub open spec fn palette_of(p: TerrainProbe) -> Palette {
    if p.biome.key > 0 {
        Palette { underdirt: BEACH, surface: BEACH, undersurface: BEACH, liquid: LIQUID, beach: BEACH }
    } else {
        Palette {
            underdirt: SUBSURFACE,
            surface: if p.biome_alt.key > 0 {
                ALTERNATE_SURFACE
            } else {
                SURFACE
            },
            undersurface: UNDERSURFACE,
            liquid: LIQUID,
            beach: BEACH,
        }
    }
}

/// The block of a voxel above the floor before caves are carved.
///
/// An open voxel holds liquid below sea level and air from there up. A solid
/// one with solid ground ten voxels above is deep: ore where the ore reading
/// is above its threshold, else the biome's deep material. Any other solid
/// voxel is near the surface: above the beach line, or with solid ground five
/// voxels above, it is the top layer where the density one voxel above is
/// under the threshold and the layer beneath it otherwise; else it is beach.
pub open spec fn uncarved_block(y: int, p: TerrainProbe) -> u32 {
    let palette = palette_of(p);
    if is_solid(p.density) {
        if is_solid(p.density_above_ten) {
            if p.ore.key > ORE_THRESHOLD {
                ORE
            } else {
                palette.underdirt
            }
        } else if y > p.beach_line || is_solid(p.density_above_five) {
            if p.density_above_one.key < SOLID_THRESHOLD {
                palette.surface
            } else {
                palette.undersurface
            }
        } else {
            palette.beach
        }
    } else if y < SEA_LEVEL {
        palette.liquid
    } else {
        AIR
    }
}

/// What cave carving leaves of a block: air where the cave reading is above
/// its threshold, unless the block is liquid.
pub open spec fn carved(id: u32, cave: Reading) -> u32 {
    if id != LIQUID && cave.key > CAVE_THRESHOLD {
        AIR
    } else {
        id
    }
}

/// The block that the terrain gives a voxel at height `y`: bedrock on the
/// floor, else the carved block of the column's layering.
pub open spec fn natural_block(y: int, p: TerrainProbe) -> u32 {
    if y == 0 {
        BEDROCK
    } else {
        carved(uncarved_block(y, p), p.cave)
    }
}

/// The sites at which the noise fields are read for the voxel at `spot`, or
/// `None` where one of their coordinates is no `i32`.
pub fn probe_sites(spot: IVec3) -> (sites: Option<ProbeSites>)
    ensures
        sites.is_some() <==> sites_in_range(spot),
        sites.is_some() ==> sites.unwrap() == sites_of(spot),
{
    let alt_x = match spot.x.checked_mul(20) {
        Some(scaled) => scaled.checked_add(5000),
        None => None,
    };
    let alt_z = match spot.z.checked_mul(20) {
        Some(scaled) => scaled.checked_add(5000),
        None => None,
    };
    match (alt_x, alt_z, spot.y.checked_add(10)) {
        (Some(x), Some(z), Some(y_ten)) => Some(
            ProbeSites {
                biome: IVec2 { x: spot.x, y: spot.z },
                biome_alt: IVec2 { x, y: z },
                above_one: IVec3 { x: spot.x, y: spot.y + 1, z: spot.z },
                above_five: IVec3 { x: spot.x, y: spot.y + 5, z: spot.z },
                above_ten: IVec3 { x: spot.x, y: y_ten, z: spot.z },
            },
        ),
        _ => None,
    }
}

/// The layers of the probe's column.
pub fn palette(probe: &TerrainProbe) -> (layers: Palette)
    ensures
        layers == palette_of(*probe),
{
    let mut layers = Palette {
        underdirt: SUBSURFACE,
        surface: SURFACE,
        undersurface: UNDERSURFACE,
        liquid: LIQUID,
        beach: BEACH,
    };
    if probe.biome.exceeds(0) {
        layers.underdirt = BEACH;
        layers.surface = BEACH;
        layers.undersurface = BEACH;
    } else if probe.biome_alt.exceeds(0) {
        layers.surface = ALTERNATE_SURFACE;
    }
    layers
}

/// Carves a cave out of a block: liquid stays whatever the reading.
pub fn carve(id: u32, cave: Reading) -> (left: u32)
    ensures
        left == carved(id, cave),
        id == LIQUID ==> left == LIQUID,
        left == id || left == AIR,
{
    if id != LIQUID && cave.exceeds(CAVE_THRESHOLD) {
        AIR
    } else {
        id
    }
}

/// The block that the terrain alone gives the voxel at `spot`, from the probe
/// taken there.
pub fn natural_blockat(probe: &TerrainProbe, spot: IVec3) -> (id: u32)
    ensures
        id == natural_block(spot.y as int, *probe),
        spot.y == 0 ==> id == BEDROCK,
{
    if spot.y == 0 {
        return BEDROCK;
    }
    let layers = palette(probe);
    let uncarved = if probe.density.exceeds(SOLID_THRESHOLD) {
        if probe.density_above_ten.exceeds(SOLID_THRESHOLD) {
            if probe.ore.exceeds(ORE_THRESHOLD) {
                ORE
            } else {
                layers.underdirt
            }
        } else if spot.y > probe.beach_line || probe.density_above_five.exceeds(SOLID_THRESHOLD) {
            if probe.density_above_one.is_below(SOLID_THRESHOLD) {
                layers.surface
            } else {
                layers.undersurface
            }
        } else {
            layers.beach
        }
    } else if spot.y < SEA_LEVEL {
        layers.liquid
    } else {
        AIR
    };
    carve(uncarved, probe.cave)
}

/// The block of the voxel at `spot`: the one that the terrain gives it.
pub fn blockat(probe: &TerrainProbe, spot: IVec3) -> (id: u32)
    ensures
        id == natural_block(spot.y as int, *probe),
{
    natural_blockat(probe, spot)
}

/// The floor of the world is bedrock whatever the noise reads.
pub proof fn lemma_floor_is_bedrock(p: TerrainProbe)
    ensures
        natural_block(0, p) == BEDROCK,
{
}

/// Caves never carve liquid: where the block before carving is the liquid, it
/// is the block after carving, whatever the cave reading.
pub proof fn lemma_liquid_is_never_carved(y: int, p: TerrainProbe, cave: Reading)
    ensures
        carved(LIQUID, cave) == LIQUID,
        y != 0 && uncarved_block(y, p) == LIQUID ==> natural_block(y, p) == LIQUID,
{
}

/// The block of a voxel depends on its height and its probe alone: the same
/// height and the same readings give the same block, at any horizontal place.
pub proof fn lemma_block_is_a_function_of_the_probe(a: IVec3, b: IVec3, p: TerrainProbe, q: TerrainProbe)
    requires
        a.y == b.y,
        p == q,
    ensures
        natural_block(a.y as int, p) == natural_block(b.y as int, q),
{
}

/// The terrain gives a voxel one of nine blocks.
pub proof fn lemma_natural_block_range(y: int, p: TerrainProbe)
    ensures
        ({
            let id = natural_block(y, p);
            id == AIR || id == BEACH || id == LIQUID || id == SURFACE || id == UNDERSURFACE || id
                == SUBSURFACE || id == BEDROCK || id == ALTERNATE_SURFACE || id == ORE
        }),
{
}

} // verus!

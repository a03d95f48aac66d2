//! The fixed starter island: its terrain grid, the discrete tile modules
//! (interior, coast, corner, bridge, biome blend) and the neighbour-coherent
//! variant picking that assigns tile art. Land strength, biome blending and
//! tile noise are float noise fields sampled by the caller.

use vstd::prelude::*;
use rand::Rng;
use rand::SeedableRng;
use rand::rngs::StdRng;
use crate::island::grid::{CELL_COUNT, valid_cell, in_grid, flat_index, col_of, row_of, step4, neighbor4, lemma_step4};
use crate::text::owned;

verus! {

/// Terrain of a starter-island cell.
#[derive(Clone, Copy, Debug, PartialEq, Eq, Structural)]
pub enum TerrainKind {
    Ocean,
    Volcanic,
    Haunted,
}

impl TerrainKind {
    /// Volcanic or haunted land.
    pub fn is_land(self) -> (r: bool)
        ensures
            r == (self != TerrainKind::Ocean),
    {
        match self {
            TerrainKind::Volcanic | TerrainKind::Haunted => true,
            TerrainKind::Ocean => false,
        }
    }
}

/// Biome of a starter-island land cell.
#[derive(Clone, Copy, Debug, PartialEq, Eq, Structural)]
pub enum Biome {
    Volcanic,
    Haunted,
}

/// Discrete data of a starter-island cell (heights are float noise kept by
/// the caller).
#[derive(Clone, Debug)]
pub struct CellData {
    pub terrain: TerrainKind,
    pub biome: Option<Biome>,
    pub tile_path: String,
    /// Cliff edge bitmask: bit 0 north, 1 east, 2 south, 3 west.
    pub cliff_mask: u8,
    /// Trees placed in this cell (at most 2).
    pub tree_count: u8,
}

/// The starter island.
#[derive(Clone, Debug)]
pub struct IslandGrid {
    pub cells: Vec<CellData>,
    pub seed: u32,
}

impl IslandGrid {
    /// One cell per logic cell.
    pub open spec fn wf(&self) -> bool {
        self.cells@.len() == 97344
    }

    /// Terrain at `(col, row)`; ocean off the grid.
    pub fn terrain(&self, col: i32, row: i32) -> (r: TerrainKind)
        requires
            self.wf(),
        ensures
            in_grid(col as int, row as int) ==> r == self.cells@[flat_index(col as int, row as int)].terrain,
            !in_grid(col as int, row as int) ==> r == TerrainKind::Ocean,
    {
        match crate::island::grid::IslandGenGrid::idx(col, row) {
            Some(i) => self.cells[i].terrain,
            None => TerrainKind::Ocean,
        }
    }

    /// The middle cell.
    pub fn center_cell(&self) -> (r: (i32, i32))
        ensures
            r == (156i32, 156i32),
    {
        (156, 156)
    }
}

/// Tile art of cliff cells, by biome.
pub open spec fn spec_cliff_tile_for(biome: Option<Biome>) -> Seq<char> {
    match biome {
        Some(Biome::Volcanic) => "runtime/tilesets/volcanic/volcanic_basalt_cracked_base_v01.png"@,
        Some(Biome::Haunted) => "runtime/tilesets/haunted/haunted_root_soil_base_v01.png"@,
        None => Seq::empty(),
    }
}

/// Tile art of cliff cells, by biome.
pub fn cliff_tile_for(biome: Option<Biome>) -> (r: String)
    ensures
        r@ == spec_cliff_tile_for(biome),
{
    match biome {
        Some(Biome::Volcanic) => owned("runtime/tilesets/volcanic/volcanic_basalt_cracked_base_v01.png"),
        Some(Biome::Haunted) => owned("runtime/tilesets/haunted/haunted_root_soil_base_v01.png"),
        None => String::new(),
    }
}

/// Cliff bitmask from the four edge tests (north, east, south, west).
pub fn cliff_mask_from_edges(n: bool, e: bool, s: bool, w: bool) -> (r: u8)
    ensures
        r == (if n { 1int } else { 0 }) + (if e { 2int } else { 0 }) + (if s { 4int } else { 0 }) + (if w { 8int } else { 0 }),
{
    let mut m: u8 = 0;
    if n { m = m + 1; }
    if e { m = m + 2; }
    if s { m = m + 4; }
    if w { m = m + 8; }
    m
}

/// Placement module of a land cell.
#[derive(Clone, Copy, Debug, PartialEq, Eq, Structural)]
pub enum TileModule {
    Interior,
    Coast,
    CoastCorner,
    CoastBridge,
    BiomeBlend,
    Cliff,
}

/// Volcanic tile families.
pub open spec fn volcanic_families() -> Seq<Seq<Seq<char>>> {
    seq![
        seq!["volcanic_ash_soil_base_v01"@, "volcanic_ash_soil_cracked_base_v01"@, "volcanic_charred_dirt_base_v01"@],
        seq!["volcanic_black_sand_base_v01"@, "volcanic_black_sand_ash_dusted_base_v01"@, "volcanic_ember_grit_base_v01"@],
        seq!["volcanic_ash_grass_sparse_base_v01"@, "volcanic_ash_soil_base_v01"@, "volcanic_sulfur_stain_base_v01"@],
        seq!["volcanic_cooling_lava_base_v01"@, "volcanic_lava_crack_base_v01"@, "volcanic_obsidian_shard_base_v01"@],
        seq!["volcanic_basalt_cracked_base_v01"@, "volcanic_basalt_base_v01"@, "volcanic_obsidian_shard_base_v01"@],
    ]
}

/// Haunted tile families.
pub open spec fn haunted_families() -> Seq<Seq<Seq<char>>> {
    seq![
        seq!["haunted_moon_grass_base_v01"@, "haunted_moon_grass_dark_base_v01"@, "haunted_moon_grass_pale_base_v01"@],
        seq!["haunted_moss_soil_base_v01"@, "haunted_root_soil_base_v01"@, "haunted_wet_soil_base_v01"@],
        seq!["haunted_leaf_litter_base_v01"@, "haunted_pale_mud_base_v01"@, "haunted_sunken_grass_base_v01"@],
    ]
}

fn family(biome: Biome, family_index: usize) -> (r: Vec<&'static str>)
    ensures
        r@.len() == 3,
        forall|k: int| 0 <= k < 3 ==> (#[trigger] r@[k])@ == (match biome {
            Biome::Volcanic => volcanic_families()[(family_index % 5) as int][k],
            Biome::Haunted => haunted_families()[(family_index % 3) as int][k],
        }),
{
    match biome {
        Biome::Volcanic => match family_index % 5 {
            0 => vec!["volcanic_ash_soil_base_v01", "volcanic_ash_soil_cracked_base_v01", "volcanic_charred_dirt_base_v01"],
            1 => vec!["volcanic_black_sand_base_v01", "volcanic_black_sand_ash_dusted_base_v01", "volcanic_ember_grit_base_v01"],
            2 => vec!["volcanic_ash_grass_sparse_base_v01", "volcanic_ash_soil_base_v01", "volcanic_sulfur_stain_base_v01"],
            3 => vec!["volcanic_cooling_lava_base_v01", "volcanic_lava_crack_base_v01", "volcanic_obsidian_shard_base_v01"],
            _ => vec!["volcanic_basalt_cracked_base_v01", "volcanic_basalt_base_v01", "volcanic_obsidian_shard_base_v01"],
        },
        Biome::Haunted => match family_index % 3 {
            0 => vec!["haunted_moon_grass_base_v01", "haunted_moon_grass_dark_base_v01", "haunted_moon_grass_pale_base_v01"],
            1 => vec!["haunted_moss_soil_base_v01", "haunted_root_soil_base_v01", "haunted_wet_soil_base_v01"],
            _ => vec!["haunted_leaf_litter_base_v01", "haunted_pale_mud_base_v01", "haunted_sunken_grass_base_v01"],
        },
    }
}

/// Coast tiles of a biome: black-sand tiles for the black-sand volcanic
/// family, basalt tiles for other volcanic families, puddles and salt for
/// haunted coasts.
pub open spec fn spec_coast_variants(biome: Biome, family_index: usize) -> Seq<Seq<char>> {
    match biome {
        Biome::Volcanic => if volcanic_families()[(family_index % 5) as int].contains("volcanic_black_sand_base_v01"@) {
            seq!["volcanic_black_sand_base_v01"@, "volcanic_black_sand_ash_dusted_base_v01"@, "volcanic_ember_grit_base_v01"@]
        } else {
            seq!["volcanic_ash_soil_cracked_base_v01"@, "volcanic_basalt_cracked_base_v01"@, "volcanic_charred_dirt_base_v01"@]
        },
        Biome::Haunted => seq!["haunted_shallow_puddle_base_v01"@, "haunted_salt_stained_soil_base_v01"@, "haunted_pale_stone_mix_base_v01"@],
    }
}

/// Cliff tiles of a biome.
pub open spec fn spec_cliff_variants(biome: Biome) -> Seq<Seq<char>> {
    match biome {
        Biome::Volcanic => seq!["volcanic_basalt_cracked_base_v01"@, "volcanic_lava_crack_base_v01"@, "volcanic_obsidian_shard_base_v01"@],
        Biome::Haunted => seq!["haunted_root_soil_base_v01"@, "haunted_pale_mud_base_v01"@, "haunted_moss_soil_base_v01"@],
    }
}

/// Tile stems a module may use in a biome family.
pub open spec fn spec_variant_pool(m: TileModule, biome: Biome, family_index: usize) -> Seq<Seq<char>> {
    match m {
        TileModule::Interior | TileModule::BiomeBlend => match biome {
            Biome::Volcanic => volcanic_families()[(family_index % 5) as int],
            Biome::Haunted => haunted_families()[(family_index % 3) as int],
        },
        TileModule::Coast | TileModule::CoastCorner | TileModule::CoastBridge => spec_coast_variants(biome, family_index),
        TileModule::Cliff => spec_cliff_variants(biome),
    }
}

impl TileModule {
    /// Tile stems this module may use in a biome family.
    pub fn variant_pool(self, biome: Biome, family_index: usize) -> (r: Vec<&'static str>)
        ensures
            r@.len() == 3,
            forall|k: int| 0 <= k < 3 ==> (#[trigger] r@[k])@ == spec_variant_pool(self, biome, family_index)[k],
    {
        match self {
            TileModule::Interior | TileModule::BiomeBlend => family(biome, family_index),
            TileModule::Coast | TileModule::CoastCorner | TileModule::CoastBridge => {
                match biome {
                    Biome::Volcanic => {
                        let is_black_sand = family_index % 5 == 1;
                        proof {
                            reveal_strlit("volcanic_black_sand_base_v01");
                            reveal_strlit("volcanic_ash_soil_base_v01");
                            reveal_strlit("volcanic_ash_grass_sparse_base_v01");
                            reveal_strlit("volcanic_ash_soil_cracked_base_v01");
                            reveal_strlit("volcanic_charred_dirt_base_v01");
                            reveal_strlit("volcanic_black_sand_ash_dusted_base_v01");
                            reveal_strlit("volcanic_ember_grit_base_v01");
                            reveal_strlit("volcanic_sulfur_stain_base_v01");
                            reveal_strlit("volcanic_cooling_lava_base_v01");
                            reveal_strlit("volcanic_lava_crack_base_v01");
                            reveal_strlit("volcanic_obsidian_shard_base_v01");
                            reveal_strlit("volcanic_basalt_cracked_base_v01");
                            reveal_strlit("volcanic_basalt_base_v01");
                            let f = volcanic_families()[(family_index % 5) as int];
                            let t = "volcanic_black_sand_base_v01"@;
                            if family_index % 5 == 1 {
                                assert(f[0] == t);
                            } else {
                                assert forall|k: int| 0 <= k < 3 implies f[k] != t by {
                                    assert(f[k].len() != t.len() || f[k][10] != t[10] || f[k][9] != t[9] || f[k][11] != t[11]
                                        || f[k][13] != t[13] || f[k][15] != t[15] || f[k][20] != t[20]);
                                }
                            }
                        }
                        if is_black_sand {
                            vec!["volcanic_black_sand_base_v01", "volcanic_black_sand_ash_dusted_base_v01", "volcanic_ember_grit_base_v01"]
                        } else {
                            vec!["volcanic_ash_soil_cracked_base_v01", "volcanic_basalt_cracked_base_v01", "volcanic_charred_dirt_base_v01"]
                        }
                    },
                    Biome::Haunted => vec![
                        "haunted_shallow_puddle_base_v01",
                        "haunted_salt_stained_soil_base_v01",
                        "haunted_pale_stone_mix_base_v01",
                    ],
                }
            },
            TileModule::Cliff => match biome {
                Biome::Volcanic => vec!["volcanic_basalt_cracked_base_v01", "volcanic_lava_crack_base_v01", "volcanic_obsidian_shard_base_v01"],
                Biome::Haunted => vec!["haunted_root_soil_base_v01", "haunted_pale_mud_base_v01", "haunted_moss_soil_base_v01"],
            },
        }
    }
}

/// Folder of a biome's tiles.
pub open spec fn spec_biome_dir(b: Biome) -> Seq<char> {
    match b {
        Biome::Volcanic => "volcanic"@,
        Biome::Haunted => "haunted"@,
    }
}

/// Folder of a biome's tiles.
pub fn biome_dir(b: Biome) -> (r: &'static str)
    ensures
        r@ == spec_biome_dir(b),
{
    match b {
        Biome::Volcanic => "volcanic",
        Biome::Haunted => "haunted",
    }
}

/// Asset path of a tile stem in a biome.
pub open spec fn spec_tile_path(b: Biome, stem: Seq<char>) -> Seq<char> {
    "runtime/tilesets/"@ + spec_biome_dir(b) + "/"@ + stem + ".png"@
}

/// Asset path of a tile stem in a biome.
pub fn tile_path(b: Biome, stem: &str) -> (r: String)
    ensures
        r@ == spec_tile_path(b, stem@),
{
    let mut s = String::new();
    s.append("runtime/tilesets/");
    s.append(biome_dir(b));
    s.append("/");
    s.append(stem);
    s.append(".png");
    assert(s@ =~= spec_tile_path(b, stem@));
    s
}

/// A neighbour counts as ocean for tiling when it is off the grid, water, or
/// land of the other biome.
pub open spec fn ocean_for_tiling(cells: Seq<CellData>, col: int, row: int, here: Option<Biome>) -> bool {
    if !in_grid(col, row) {
        true
    } else {
        let c = cells[flat_index(col, row)];
        if c.terrain == TerrainKind::Ocean {
            true
        } else {
            match (here, c.biome) {
                (Some(a), Some(b)) => a != b,
                _ => false,
            }
        }
    }
}

fn is_ocean(cells: &Vec<CellData>, col: i32, row: i32, here: Option<Biome>) -> (r: bool)
    requires
        cells@.len() == 97344,
    ensures
        r == ocean_for_tiling(cells@, col as int, row as int, here),
{
    match crate::island::grid::IslandGenGrid::idx(col, row) {
        None => true,
        Some(i) => {
            let c = &cells[i];
            if !c.terrain.is_land() {
                return true;
            }
            match (here, c.biome) {
                (Some(a), Some(b)) => a != b,
                _ => false,
            }
        },
    }
}

/// Same-biome land bitmask of a cell's 4 neighbours (bit 0 north, 1 east,
/// 2 south, 3 west).
pub open spec fn spec_neighbor_mask(cells: Seq<CellData>, col: int, row: int) -> u8 {
    let here = cells[flat_index(col, row)].biome;
    ((if !ocean_for_tiling(cells, col, row - 1, here) { 1int } else { 0 })
        + (if !ocean_for_tiling(cells, col + 1, row, here) { 2int } else { 0 })
        + (if !ocean_for_tiling(cells, col, row + 1, here) { 4int } else { 0 })
        + (if !ocean_for_tiling(cells, col - 1, row, here) { 8int } else { 0 })) as u8
}

/// Grids that agree on every cell's terrain and biome agree on whether a
/// position counts as ocean for tiling.
proof fn lemma_ocean_for_tiling_agrees(a: Seq<CellData>, b: Seq<CellData>, col: int, row: int, here: Option<Biome>)
    requires
        a.len() == 97344,
        b.len() == 97344,
        forall|j: int| 0 <= j < 97344 ==> (#[trigger] a[j]).terrain == b[j].terrain && a[j].biome == b[j].biome,
    ensures
        ocean_for_tiling(a, col, row, here) == ocean_for_tiling(b, col, row, here),
{
    if in_grid(col, row) {
        crate::island::grid::lemma_flat_index(col, row);
    }
}

/// Grids that agree on every cell's terrain and biome give each cell the
/// same neighbour mask.
proof fn lemma_neighbor_mask_agrees(a: Seq<CellData>, b: Seq<CellData>, col: int, row: int)
    requires
        a.len() == 97344,
        b.len() == 97344,
        in_grid(col, row),
        forall|j: int| 0 <= j < 97344 ==> (#[trigger] a[j]).terrain == b[j].terrain && a[j].biome == b[j].biome,
    ensures
        spec_neighbor_mask(a, col, row) == spec_neighbor_mask(b, col, row),
{
    crate::island::grid::lemma_flat_index(col, row);
    let here = a[flat_index(col, row)].biome;
    lemma_ocean_for_tiling_agrees(a, b, col, row - 1, here);
    lemma_ocean_for_tiling_agrees(a, b, col + 1, row, here);
    lemma_ocean_for_tiling_agrees(a, b, col, row + 1, here);
    lemma_ocean_for_tiling_agrees(a, b, col - 1, row, here);
}

/// Same-biome land bitmask of a cell's 4 neighbours.
pub fn neighbor_mask(cells: &Vec<CellData>, col: i32, row: i32) -> (r: u8)
    requires
        cells@.len() == 97344,
        in_grid(col as int, row as int),
    ensures
        r == spec_neighbor_mask(cells@, col as int, row as int),
{
    proof { crate::island::grid::lemma_flat_index(col as int, row as int); }
    let here = cells[(row * 312 + col) as usize].biome;
    let mut mask: u8 = 0;
    if !is_ocean(cells, col, row - 1, here) { mask = mask + 1; }
    if !is_ocean(cells, col + 1, row, here) { mask = mask + 2; }
    if !is_ocean(cells, col, row + 1, here) { mask = mask + 4; }
    if !is_ocean(cells, col - 1, row, here) { mask = mask + 8; }
    mask
}

/// Module of a land cell from its neighbour mask: biome blend above the
/// blend threshold, interior with four land sides, coast with three, corner
/// or bridge with two adjacent or opposite, corner otherwise.
pub open spec fn spec_classify_module(mask: u8, blend_high: bool) -> TileModule {
    let n = mask & 1 != 0;
    let e = mask & 2 != 0;
    let s = mask & 4 != 0;
    let w = mask & 8 != 0;
    let bits = crate::island::transition::ones(mask);
    if blend_high {
        TileModule::BiomeBlend
    } else if bits == 4 {
        TileModule::Interior
    } else if bits == 3 {
        TileModule::Coast
    } else if bits == 2 {
        if (n && e) || (e && s) || (s && w) || (w && n) { TileModule::CoastCorner } else { TileModule::CoastBridge }
    } else {
        TileModule::CoastCorner
    }
}

/// Module of a land cell; `blend_high` tells whether its biome blend
/// exceeds 0.35.
pub fn classify_module(mask: u8, blend_high: bool) -> (r: TileModule)
    ensures
        r == spec_classify_module(mask, blend_high),
{
    if blend_high {
        return TileModule::BiomeBlend;
    }
    let mut bits: u8 = 0;
    if mask & 1 != 0 { bits = bits + 1; }
    if mask & 2 != 0 { bits = bits + 1; }
    if mask & 4 != 0 { bits = bits + 1; }
    if mask & 8 != 0 { bits = bits + 1; }
    if mask & 16 != 0 { bits = bits + 1; }
    if mask & 32 != 0 { bits = bits + 1; }
    if mask & 64 != 0 { bits = bits + 1; }
    if mask & 128 != 0 { bits = bits + 1; }
    if bits == 4 {
        TileModule::Interior
    } else if bits == 3 {
        TileModule::Coast
    } else if bits == 2 {
        let adjacent = (mask & 1 != 0 && mask & 2 != 0) || (mask & 2 != 0 && mask & 4 != 0) || (mask & 4 != 0 && mask & 8 != 0)
            || (mask & 8 != 0 && mask & 1 != 0);
        if adjacent { TileModule::CoastCorner } else { TileModule::CoastBridge }
    } else {
        TileModule::CoastCorner
    }
}

/// Volcanic heat class of a cell from the heat noise: cooling lava above
/// 0.62, lava crack above 0.48, black sand below -0.42, ash-dusted sand below
/// -0.28, none between.
#[derive(Clone, Copy, Debug, PartialEq, Eq, Structural)]
pub enum HeatClass {
    CoolingLava,
    LavaCrack,
    BlackSand,
    AshDustedSand,
    Mild,
}

/// Tile stem a heat class overrides with.
pub open spec fn heat_stem(h: HeatClass) -> Option<Seq<char>> {
    match h {
        HeatClass::CoolingLava => Some("volcanic_cooling_lava_base_v01"@),
        HeatClass::LavaCrack => Some("volcanic_lava_crack_base_v01"@),
        HeatClass::BlackSand => Some("volcanic_black_sand_base_v01"@),
        HeatClass::AshDustedSand => Some("volcanic_black_sand_ash_dusted_base_v01"@),
        HeatClass::Mild => None,
    }
}

/// Noise samples of a land cell for tiling.
#[derive(Clone, Copy, Debug, PartialEq, Eq, Structural)]
pub struct TileSample {
    /// Family of the nearest biome chunk.
    pub family_index: usize,
    /// Whether the biome blend exceeds 0.35.
    pub blend_high: bool,
    /// The tile-noise pick among a pool of 3.
    pub noise_pick: u8,
    pub heat: HeatClass,
}

/// A `StdRng` random generator.
#[verifier::external_type_specification]
#[verifier::external_body]
pub struct ExStdRng(StdRng);

/// A seeded generator, with a ghost record of the seed it was made from and
/// of the ratios it has been asked to draw against, in order.
struct SeededDraws {
    rng: StdRng,
    seed: Ghost<u64>,
    ratios: Ghost<Seq<(u32, u32)>>,
}

impl SeededDraws {
    /// Seed the generator was made from.
    closed spec fn seed_of(&self) -> u64 {
        self.seed@
    }

    /// Ratios `(numerator, denominator)` drawn against so far, oldest first.
    closed spec fn ratios_of(&self) -> Seq<(u32, u32)> {
        self.ratios@
    }
}

/// `SeedableRng::seed_from_u64`: a generator seeded from `seed`, recorded as
/// such, with no draws yet. Its stream is not described.
#[verifier::external_body]
fn seeded_draws(seed: u64) -> (d: SeededDraws)
    ensures
        d.seed_of() == seed,
        d.ratios_of() == Seq::<(u32, u32)>::empty(),
{
    SeededDraws { rng: StdRng::seed_from_u64(seed), seed: Ghost(seed), ratios: Ghost(Seq::empty()) }
}

/// Outcome of the last of the ratio draws `ratios`, made in order by a
/// `StdRng` freshly seeded from `seed`. A seeded `StdRng` is deterministic:
/// its stream depends on the seed and on the draws made so far alone.
pub uninterp spec fn std_ratio_outcome(seed: u64, ratios: Seq<(u32, u32)>) -> bool;

/// `Rng::gen_ratio`: true with probability `numerator / denominator`, with the
/// ratio appended to the record. The documentation promises true when the two
/// are equal and false when the numerator is 0; otherwise the outcome is the
/// generator's, named by `std_ratio_outcome` from its seed and the ratios it
/// has drawn, this one last.
#[verifier::external_body]
fn rng_ratio(draws: &mut SeededDraws, numerator: u32, denominator: u32) -> (r: bool)
    requires
        0 < denominator,
        numerator <= denominator,
    ensures
        numerator == 0 ==> !r,
        numerator == denominator ==> r,
        final(draws).seed_of() == old(draws).seed_of(),
        final(draws).ratios_of() == old(draws).ratios_of().push((numerator, denominator)),
        r == std_ratio_outcome(old(draws).seed_of(), old(draws).ratios_of().push((numerator, denominator))),
{
    draws.rng.gen_ratio(numerator, denominator)
}

/// Variant (0..3) of a land cell: its noise pick, replaced by the upper
/// neighbour's variant when that neighbour is tiled and its draw succeeds,
/// then by the left neighbour's on the same terms.
pub open spec fn spec_cell_variant(noise_pick: u8, up: Option<u8>, left: Option<u8>, up_draw: bool, left_draw: bool) -> u8 {
    let base = (noise_pick % 3) as u8;
    let a = if up is Some && up->0 < 3 && up_draw { up->0 } else { base };
    if left is Some && left->0 < 3 && left_draw { left->0 } else { a }
}

/// Tile of land cell `i` holding variant `pick`: the heat tile for an
/// unclifed volcanic interior cell that is not mild, else the variant's pool
/// tile of the cell's module.
pub open spec fn spec_cell_tile(cells: Seq<CellData>, i: int, s: TileSample, pick: u8) -> Seq<char> {
    let c = cells[i];
    let biome = tiling_biome(c);
    let m = spec_classify_module(spec_neighbor_mask(cells, col_of(i), row_of(i)), s.blend_high);
    if biome == Biome::Volcanic && c.cliff_mask == 0 && m == TileModule::Interior && heat_stem(s.heat) is Some {
        spec_tile_path(biome, heat_stem(s.heat)->0)
    } else {
        spec_tile_path(biome, spec_variant_pool(m, biome, s.family_index)[pick as int])
    }
}

/// The variant of the tiled neighbour above cell `i`, if any.
pub open spec fn up_variant(cells: Seq<CellData>, vs: Seq<u8>, i: int) -> Option<u8> {
    if row_of(i) > 0 && cells[i - 312].terrain != TerrainKind::Ocean { Some(vs[i - 312]) } else { None }
}

/// The variant of the tiled neighbour left of cell `i`, if any.
pub open spec fn left_variant(cells: Seq<CellData>, vs: Seq<u8>, i: int) -> Option<u8> {
    if col_of(i) > 0 && cells[i - 1].terrain != TerrainKind::Ocean { Some(vs[i - 1]) } else { None }
}

/// One neighbour draw of the variant scan: a tiled neighbour with a variant
/// below 3 draws against 18/25 from the generator seeded with `seed`, after
/// the draws `ratios`; otherwise nothing is drawn and the outcome is false.
pub open spec fn neighbour_draw(seed: u64, ratios: Seq<(u32, u32)>, n: Option<u8>) -> (bool, Seq<(u32, u32)>) {
    if n is Some && n->0 < 3 {
        let r = ratios.push((18u32, 25u32));
        (std_ratio_outcome(seed, r), r)
    } else {
        (false, ratios)
    }
}

/// The variant scan from cell `i` on, in row-major order, with the variants
/// `vs` set so far and the draws `ratios` made so far: each land cell draws
/// for its upper and then its left tiled neighbour and takes the variant
/// they give (`spec_cell_variant`). Gives the variants and the draws made.
pub open spec fn wfc_scan(cells: Seq<CellData>, samples: Seq<TileSample>, seed: u64, i: int, vs: Seq<u8>, ratios: Seq<(u32, u32)>) -> (Seq<u8>, Seq<(u32, u32)>)
    decreases 97344 - i,
{
    if i < 0 || i >= 97344 {
        (vs, ratios)
    } else if cells[i].terrain == TerrainKind::Ocean {
        wfc_scan(cells, samples, seed, i + 1, vs, ratios)
    } else {
        let up = up_variant(cells, vs, i);
        let left = left_variant(cells, vs, i);
        let u = neighbour_draw(seed, ratios, up);
        let l = neighbour_draw(seed, u.1, left);
        let v = spec_cell_variant(samples[i].noise_pick, up, left, u.0, l.0);
        wfc_scan(cells, samples, seed, i + 1, vs.update(i, v), l.1)
    }
}

/// The variants and the draws of the whole scan, with the generator seeded
/// from `seed`; cells that are not tiled keep variant 0.
pub open spec fn wfc_variants(cells: Seq<CellData>, samples: Seq<TileSample>, seed: u64) -> (Seq<u8>, Seq<(u32, u32)>) {
    wfc_scan(cells, samples, seed, 0, Seq::new(97344, |j: int| 0u8), Seq::empty())
}

/// `after` is `before` tiled with variants `vs`: ocean cells keep their
/// tile, each land cell shows the tile its variant gives; no other field
/// changes.
pub open spec fn tiled_with(before: Seq<CellData>, samples: Seq<TileSample>, vs: Seq<u8>, after: Seq<CellData>) -> bool {
    &&& vs.len() == 97344
    &&& after.len() == 97344
    &&& forall|i: int| valid_cell(i) ==> {
        let o = before[i];
        let c = #[trigger] after[i];
        &&& c.terrain == o.terrain
        &&& c.biome == o.biome
        &&& c.cliff_mask == o.cliff_mask
        &&& c.tree_count == o.tree_count
        &&& (o.terrain == TerrainKind::Ocean ==> c.tile_path == o.tile_path)
        &&& (o.terrain != TerrainKind::Ocean ==> c.tile_path@ == spec_cell_tile(before, i, samples[i], vs[i]))
    }
}

/// Biome a land cell tiles with.
pub open spec fn tiling_biome(c: CellData) -> Biome {
    match c.biome { Some(b) => b, None => Biome::Volcanic }
}

/// Variant and tile of land cell `i`, given the variants of its tiled upper
/// and left neighbours (`None` when untiled) and the outcomes of the two
/// neighbour draws (drawn only for a tiled neighbour).
pub fn cell_tile(
    cells: &Vec<CellData>,
    i: usize,
    s: TileSample,
    up: Option<u8>,
    left: Option<u8>,
    up_draw: bool,
    left_draw: bool,
) -> (r: (u8, String))
    requires
        cells@.len() == 97344,
        valid_cell(i as int),
    ensures
        r.0 == spec_cell_variant(s.noise_pick, up, left, up_draw, left_draw),
        r.0 < 3,
        r.1@ == spec_cell_tile(cells@, i as int, s, r.0),
{
    let col = (i % 312) as i32;
    let row = (i / 312) as i32;
    assert(col_of(i as int) == col as int && row_of(i as int) == row as int);
    assert(in_grid(col as int, row as int));
    let biome = match cells[i].biome {
        Some(b) => b,
        None => Biome::Volcanic,
    };
    let mask = neighbor_mask(cells, col, row);
    let module = classify_module(mask, s.blend_high);
    let pool = module.variant_pool(biome, s.family_index);
    let mut pick: u8 = s.noise_pick % 3;
    if let Some(v) = up {
        if v < 3 && up_draw {
            pick = v;
        }
    }
    if let Some(v) = left {
        if v < 3 && left_draw {
            pick = v;
        }
    }
    if biome == Biome::Volcanic && cells[i].cliff_mask == 0 && module == TileModule::Interior {
        let stem: Option<&str> = match s.heat {
            HeatClass::CoolingLava => Some("volcanic_cooling_lava_base_v01"),
            HeatClass::LavaCrack => Some("volcanic_lava_crack_base_v01"),
            HeatClass::BlackSand => Some("volcanic_black_sand_base_v01"),
            HeatClass::AshDustedSand => Some("volcanic_black_sand_ash_dusted_base_v01"),
            HeatClass::Mild => None,
        };
        if let Some(st) = stem {
            return (pick, tile_path(biome, st));
        }
    }
    (pick, tile_path(biome, pool[pick as usize]))
}

/// Neighbour-coherent variant assignment: each land cell, in row-major
/// order, takes its noise pick, replaced with probability 0.72 by the
/// variant of its tiled upper neighbour and then, on the same terms, of its
/// tiled left neighbour; its tile is that variant's pool tile, unless it is
/// an unclifed volcanic interior cell whose heat is not mild, which shows its
/// heat tile. Ocean cells and every other field are left alone. The draws
/// come from a generator seeded with `seed + 9001`, one against the ratio
/// 18/25 for each tiled neighbour, so the variants are those of `wfc_variants`
/// for that seed; the returned record holds the seed and the draws made.
pub fn assign_wfc_tiles(cells: &mut Vec<CellData>, samples: &Vec<TileSample>, seed: u32) -> (draws: Ghost<(u64, Seq<(u32, u32)>)>)
    requires
        old(cells)@.len() == 97344,
        samples@.len() == 97344,
    ensures
        tiled_with(old(cells)@, samples@, wfc_variants(old(cells)@, samples@, (seed + 9001) as u64).0, final(cells)@),
        draws@.0 == seed as u64 + 9001,
        draws@.1 == wfc_variants(old(cells)@, samples@, (seed + 9001) as u64).1,
        forall|k: int| 0 <= k < draws@.1.len() ==> #[trigger] draws@.1[k] == (18u32, 25u32),
{
    let mut rng = seeded_draws(seed as u64 + 9001);
    let ghost c0 = cells@;
    let ghost sd: u64 = (seed + 9001) as u64;
    let ghost mut vs: Seq<u8> = Seq::new(97344, |j: int| 0u8);
    assert(wfc_scan(c0, samples@, sd, 0, vs, rng.ratios_of()) == wfc_variants(c0, samples@, sd)) by {
        assert(vs =~= Seq::new(97344, |j: int| 0u8));
        assert(rng.ratios_of() =~= Seq::<(u32, u32)>::empty());
    }
    let mut variants: Vec<Option<u8>> = Vec::new();
    let mut k: usize = 0;
    while k < CELL_COUNT
        invariant
            k <= CELL_COUNT,
            variants@.len() == k,
            forall|j: int| 0 <= j < k ==> variants@[j] is None,
        decreases CELL_COUNT - k,
    {
        variants.push(None);
        k = k + 1;
    }
    let mut i: usize = 0;
    while i < CELL_COUNT
        invariant
            i <= CELL_COUNT,
            c0 == old(cells)@,
            c0.len() == 97344,
            rng.seed_of() == seed as u64 + 9001,
            sd == seed as u64 + 9001,
            forall|k: int| 0 <= k < rng.ratios_of().len() ==> #[trigger] rng.ratios_of()[k] == (18u32, 25u32),
            wfc_scan(c0, samples@, sd, i as int, vs, rng.ratios_of()) == wfc_variants(c0, samples@, sd),
            cells@.len() == 97344,
            samples@.len() == 97344,
            variants@.len() == 97344,
            vs.len() == 97344,
            forall|j: int| 0 <= j < 97344 ==> #[trigger] variants@[j] == (if j < i && c0[j].terrain != TerrainKind::Ocean {
                Some(vs[j])
            } else {
                None::<u8>
            }),
            forall|j: int| 0 <= j < 97344 ==> #[trigger] vs[j] < 3,
            forall|j: int| 0 <= j < 97344 ==> {
                let o = c0[j];
                let c = #[trigger] cells@[j];
                &&& c.terrain == o.terrain
                &&& c.biome == o.biome
                &&& c.cliff_mask == o.cliff_mask
                &&& c.tree_count == o.tree_count
                &&& (o.terrain == TerrainKind::Ocean || j >= i ==> c.tile_path == o.tile_path)
                &&& (o.terrain != TerrainKind::Ocean && j < i ==> c.tile_path@ == spec_cell_tile(c0, j, samples@[j], vs[j]))
            },
        decreases CELL_COUNT - i,
    {
        let col = (i % 312) as i32;
        let row = (i / 312) as i32;
        if cells[i].terrain.is_land() {
            let ghost cb = cells@;
            proof {
                assert forall|j: int| 0 <= j < 97344 implies (#[trigger] cb[j]).terrain == c0[j].terrain && cb[j].biome == c0[j].biome by {}
                assert(col_of(i as int) == col as int && row_of(i as int) == row as int);
                lemma_neighbor_mask_agrees(cb, c0, col as int, row as int);
                assert(spec_cell_tile(cb, i as int, samples@[i as int], 0) == spec_cell_tile(c0, i as int, samples@[i as int], 0));
            }
            let s = samples[i];
            let up: Option<u8> = if row > 0 { variants[i - 312] } else { None };
            let left: Option<u8> = if col > 0 { variants[i - 1] } else { None };
            let ghost r0 = rng.ratios_of();
            let up_draw = match up {
                Some(v) => v < 3 && rng_ratio(&mut rng, 18, 25),
                None => false,
            };
            let ghost r1 = rng.ratios_of();
            assert((up_draw, r1) == neighbour_draw(sd, r0, up));
            let left_draw = match left {
                Some(v) => v < 3 && rng_ratio(&mut rng, 18, 25),
                None => false,
            };
            assert((left_draw, rng.ratios_of()) == neighbour_draw(sd, r1, left));
            let (pick, path) = cell_tile(cells, i, s, up, left, up_draw, left_draw);
            proof {
                assert(up == up_variant(c0, vs, i as int));
                assert(left == left_variant(c0, vs, i as int));
                assert(spec_cell_tile(cb, i as int, s, pick) == spec_cell_tile(c0, i as int, s, pick));
            }
            proof {
                assert(wfc_scan(c0, samples@, sd, i as int, vs, r0)
                    == wfc_scan(c0, samples@, sd, i + 1, vs.update(i as int, pick), rng.ratios_of()));
                vs = vs.update(i as int, pick);
            }
            variants.set(i, Some(pick));
            let nc = CellData {
                terrain: cells[i].terrain,
                biome: cells[i].biome,
                tile_path: path,
                cliff_mask: cells[i].cliff_mask,
                tree_count: cells[i].tree_count,
            };
            cells.set(i, nc);
        }
        i = i + 1;
    }
    assert(wfc_scan(c0, samples@, sd, 97344, vs, rng.ratios_of()) == (vs, rng.ratios_of()));
    assert(tiled_with(c0, samples@, vs, cells@));
    Ghost((rng.seed_of(), rng.ratios_of()))
}

} // verus!

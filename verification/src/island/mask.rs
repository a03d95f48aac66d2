//! Stage 1 of generation: the land/ocean mask, its cellular smoothing and the
//! filling of interior ocean holes.

use vstd::prelude::*;
use crate::island::types::{CellData, TerrainRole, SurfaceId, default_cell};
use crate::island::grid::{IslandGenGrid, CELL_COUNT, valid_cell, col_of, row_of, step4, lemma_step4};
use crate::island::sea::{reaches_sea_within, reach_via, connected_to_sea, flood_fill_open_water};

verus! {

/// Class of the land-strength noise sample of a cell: at least 0.22 is land,
/// at least 0.08 shallow water, anything lower deep ocean.
#[derive(Clone, Copy, Debug, PartialEq, Eq, Structural)]
pub enum MaskSample {
    Land,
    Shallow,
    Deep,
}

/// `c` turned into generic land, resolved into beach or biome later.
pub open spec fn mask_land_cell(c: CellData) -> CellData {
    CellData { role: TerrainRole::LandBlank, role_locked: false, surface: SurfaceId::OceanShallow, ..c }
}

/// Cell `c` after the land-mask sample `s`.
pub open spec fn masked_cell(c: CellData, s: MaskSample) -> CellData {
    match s {
        MaskSample::Land => mask_land_cell(c),
        MaskSample::Shallow => CellData { role: TerrainRole::OceanShallow, surface: SurfaceId::OceanShallow, ..c },
        MaskSample::Deep => default_cell(),
    }
}

/// Apply the land mask: `samples[i]` classifies the land strength of cell `i`.
pub fn generate_land_mask(grid: &mut IslandGenGrid, samples: &Vec<MaskSample>)
    requires
        old(grid).wf(),
        samples@.len() == 97344,
    ensures
        final(grid).wf(),
        final(grid).recipe == old(grid).recipe,
        final(grid).interior_holes_filled == old(grid).interior_holes_filled,
        forall|i: int| valid_cell(i) ==> final(grid).cells@[i] == masked_cell(old(grid).cells@[i], samples@[i]),
{
    let mut i: usize = 0;
    while i < CELL_COUNT
        invariant
            i <= CELL_COUNT,
            samples@.len() == 97344,
            grid.wf(),
            grid.recipe == old(grid).recipe,
            grid.interior_holes_filled == old(grid).interior_holes_filled,
            forall|j: int| 0 <= j < i ==> grid.cells@[j] == masked_cell(old(grid).cells@[j], samples@[j]),
            forall|j: int| i <= j < 97344 ==> grid.cells@[j] == old(grid).cells@[j],
        decreases CELL_COUNT - i,
    {
        let c = grid.cells[i];
        let n = match samples[i] {
            MaskSample::Land => CellData { role: TerrainRole::LandBlank, role_locked: false, surface: SurfaceId::OceanShallow, ..c },
            MaskSample::Shallow => CellData { role: TerrainRole::OceanShallow, surface: SurfaceId::OceanShallow, ..c },
            MaskSample::Deep => CellData::default(),
        };
        grid.cells.set(i, n);
        i = i + 1;
    }
}

/// Which cells are land.
pub open spec fn land_of(cells: Seq<CellData>) -> Seq<bool> {
    Seq::new(cells.len(), |i: int| cells[i].role.land())
}

/// Which cells are open water.
pub open spec fn water_of(cells: Seq<CellData>) -> Seq<bool> {
    Seq::new(cells.len(), |i: int| !cells[i].role.land())
}

/// Cells of the outer two rings, kept as ocean by the smoothing.
pub open spec fn in_rim(i: int) -> bool {
    col_of(i) <= 1 || row_of(i) <= 1 || col_of(i) >= 310 || row_of(i) >= 310
}

/// `1` when `b`, else `0`.
pub open spec fn bit(b: bool) -> int {
    if b { 1 } else { 0 }
}

/// Number of land cells among the 8 neighbours of a cell off the rim.
pub open spec fn land_neighbors8(land: Seq<bool>, i: int) -> int {
    bit(land[i - 312]) + bit(land[i + 1]) + bit(land[i + 312]) + bit(land[i - 1])
        + bit(land[i - 311]) + bit(land[i + 313]) + bit(land[i + 311]) + bit(land[i - 313])
}

/// One majority pass on cell `i`, given the land snapshot taken before the
/// pass: the rim is forced to ocean, a land cell with at most 3 land
/// neighbours erodes to deep ocean, a water cell with at least 5 fills to land.
pub open spec fn smoothed_cell(land: Seq<bool>, c: CellData, i: int) -> CellData {
    if in_rim(i) {
        if c.role.land() { default_cell() } else { c }
    } else {
        let n = land_neighbors8(land, i);
        if c.role.land() && n <= 3 {
            default_cell()
        } else if !c.role.land() && n >= 5 {
            mask_land_cell(c)
        } else {
            c
        }
    }
}

/// One smoothing pass is a majority vote of the 8 neighbours, taken on the
/// land before the pass: off the two-cell rim, a cell with at least 5 land
/// neighbours is land afterwards (water there is filled as blank land), a
/// cell with at most 3 is water afterwards (land there erodes to deep ocean),
/// and a cell with exactly 4 is left as it was; the rim is water afterwards.
pub proof fn law_smoothing_follows_majority(cells: Seq<CellData>, i: int)
    requires
        cells.len() == 97344,
        valid_cell(i),
    ensures
        in_rim(i) ==> !smooth_pass(cells)[i].role.land(),
        !in_rim(i) ==> {
            let n = land_neighbors8(land_of(cells), i);
            let after = smooth_pass(cells)[i];
            &&& (n >= 5 ==> after.role.land())
            &&& (n >= 5 && !cells[i].role.land() ==> after.role == TerrainRole::LandBlank && after.biome == cells[i].biome
                && !after.role_locked)
            &&& (n <= 3 ==> !after.role.land())
            &&& (n <= 3 && cells[i].role.land() ==> after.role == TerrainRole::OceanDeep)
            &&& (n <= 3 && !cells[i].role.land() ==> after == cells[i])
            &&& (n == 4 ==> after == cells[i])
            &&& (n >= 5 && cells[i].role.land() ==> after == cells[i])
        },
{
}

/// The cells after one smoothing pass.
pub open spec fn smooth_pass(cells: Seq<CellData>) -> Seq<CellData> {
    Seq::new(cells.len(), |i: int| smoothed_cell(land_of(cells), cells[i], i))
}

fn land_snapshot(cells: &Vec<CellData>) -> (r: Vec<bool>)
    ensures
        r@ == land_of(cells@),
{
    let mut r: Vec<bool> = Vec::new();
    let mut i: usize = 0;
    while i < cells.len()
        invariant
            i <= cells.len(),
            r@.len() == i,
            forall|j: int| 0 <= j < i ==> r@[j] == cells@[j].role.land(),
        decreases cells.len() - i,
    {
        r.push(cells[i].role.is_land());
        i = i + 1;
    }
    assert(r@ =~= land_of(cells@));
    r
}

fn count_bit(b: bool) -> (r: u8)
    ensures
        r == bit(b),
{
    if b { 1 } else { 0 }
}

/// One cellular-automaton pass of the mask smoothing.
pub fn smooth_island_mask_pass(grid: &mut IslandGenGrid)
    requires
        old(grid).wf(),
    ensures
        final(grid).wf(),
        final(grid).recipe == old(grid).recipe,
        final(grid).interior_holes_filled == old(grid).interior_holes_filled,
        final(grid).cells@ == smooth_pass(old(grid).cells@),
{
    let land = land_snapshot(&grid.cells);
    let mut i: usize = 0;
    while i < CELL_COUNT
        invariant
            i <= CELL_COUNT,
            grid.wf(),
            land@ == land_of(old(grid).cells@),
            old(grid).cells@.len() == 97344,
            grid.recipe == old(grid).recipe,
            grid.interior_holes_filled == old(grid).interior_holes_filled,
            forall|j: int| 0 <= j < i ==> grid.cells@[j] == smoothed_cell(land@, old(grid).cells@[j], j),
            forall|j: int| i <= j < 97344 ==> grid.cells@[j] == old(grid).cells@[j],
        decreases CELL_COUNT - i,
    {
        let c = grid.cells[i];
        let col = i % 312;
        let row = i / 312;
        let n = if col <= 1 || row <= 1 || col >= 310 || row >= 310 {
            if c.role.is_land() { CellData::default() } else { c }
        } else {
            assert(i >= 313 && i + 313 < 97344);
            let count = count_bit(land[i - 312]) + count_bit(land[i + 1]) + count_bit(land[i + 312])
                + count_bit(land[i - 1]) + count_bit(land[i - 311]) + count_bit(land[i + 313])
                + count_bit(land[i + 311]) + count_bit(land[i - 313]);
            if c.role.is_land() && count <= 3 {
                CellData::default()
            } else if !c.role.is_land() && count >= 5 {
                CellData { role: TerrainRole::LandBlank, role_locked: false, surface: SurfaceId::OceanShallow, ..c }
            } else {
                c
            }
        };
        grid.cells.set(i, n);
        i = i + 1;
    }
    assert(grid.cells@ =~= smooth_pass(old(grid).cells@));
}

/// Cellular-automata smoothing of the land/ocean mask: three majority passes
/// round the coastline and keep a two-cell ocean rim.
pub fn smooth_island_mask(grid: &mut IslandGenGrid)
    requires
        old(grid).wf(),
    ensures
        final(grid).wf(),
        final(grid).recipe == old(grid).recipe,
        final(grid).interior_holes_filled == old(grid).interior_holes_filled,
        final(grid).cells@ == smooth_pass(smooth_pass(smooth_pass(old(grid).cells@))),
{
    smooth_island_mask_pass(grid);
    smooth_island_mask_pass(grid);
    smooth_island_mask_pass(grid);
}

fn water_snapshot(cells: &Vec<CellData>) -> (r: Vec<bool>)
    ensures
        r@ == water_of(cells@),
{
    let mut r: Vec<bool> = Vec::new();
    let mut i: usize = 0;
    while i < cells.len()
        invariant
            i <= cells.len(),
            r@.len() == i,
            forall|j: int| 0 <= j < i ==> r@[j] == !cells@[j].role.land(),
        decreases cells.len() - i,
    {
        r.push(!cells[i].role.is_land());
        i = i + 1;
    }
    assert(r@ =~= water_of(cells@));
    r
}

/// Flood-fill the ocean inward from the world border: `r[i]` is true exactly
/// for the water cells connected to the open sea.
pub fn flood_fill_external_ocean(grid: &IslandGenGrid) -> (r: Vec<bool>)
    requires
        grid.wf(),
    ensures
        r@.len() == 97344,
        forall|i: int| valid_cell(i) ==> (r@[i] <==> connected_to_sea(water_of(grid.cells@), i)),
{
    let water = water_snapshot(&grid.cells);
    flood_fill_open_water(&water)
}

/// A water cell cut off from the open sea.
pub open spec fn is_hole(cells: Seq<CellData>, i: int) -> bool {
    !cells[i].role.land() && !connected_to_sea(water_of(cells), i)
}

/// Number of holes among the first `n` cells.
pub open spec fn holes_before(cells: Seq<CellData>, n: int) -> nat
    decreases n,
{
    if n <= 0 {
        0
    } else {
        holes_before(cells, n - 1) + if is_hole(cells, n - 1) { 1nat } else { 0nat }
    }
}

proof fn lemma_holes_before_bound(cells: Seq<CellData>, n: int)
    requires
        n >= 0,
    ensures
        holes_before(cells, n) <= n,
    decreases n,
{
    if n > 0 {
        lemma_holes_before_bound(cells, n - 1);
    }
}

/// Cell `i` after hole filling.
pub open spec fn hole_filled_cell(cells: Seq<CellData>, i: int) -> CellData {
    if is_hole(cells, i) { mask_land_cell(cells[i]) } else { cells[i] }
}

/// Convert interior ocean holes (water not connected to the outside sea) into
/// land, and record how many cells were filled.
pub fn remove_internal_ocean_holes(grid: &mut IslandGenGrid)
    requires
        old(grid).wf(),
    ensures
        final(grid).wf(),
        final(grid).recipe == old(grid).recipe,
        forall|i: int| valid_cell(i) ==> final(grid).cells@[i] == hole_filled_cell(old(grid).cells@, i),
        final(grid).interior_holes_filled == holes_before(old(grid).cells@, 97344),
{
    let external = flood_fill_external_ocean(grid);
    let ghost cells0 = grid.cells@;
    let mut filled: u32 = 0;
    let mut i: usize = 0;
    while i < CELL_COUNT
        invariant
            i <= CELL_COUNT,
            grid.wf(),
            cells0 == old(grid).cells@,
            cells0.len() == 97344,
            grid.recipe == old(grid).recipe,
            external@.len() == 97344,
            forall|j: int| valid_cell(j) ==> (#[trigger] external@[j] <==> connected_to_sea(water_of(cells0), j)),
            forall|j: int| 0 <= j < i ==> grid.cells@[j] == hole_filled_cell(cells0, j),
            forall|j: int| i <= j < 97344 ==> grid.cells@[j] == cells0[j],
            filled == holes_before(cells0, i as int),
        decreases CELL_COUNT - i,
    {
        proof { lemma_holes_before_bound(cells0, i as int); }
        let c = grid.cells[i];
        assert(external@[i as int] <==> connected_to_sea(water_of(cells0), i as int));
        assert(holes_before(cells0, i + 1) == holes_before(cells0, i as int) + if is_hole(cells0, i as int) { 1nat } else { 0nat });
        if !c.role.is_land() && !external[i] {
            grid.cells.set(i, CellData { role: TerrainRole::LandBlank, role_locked: false, surface: SurfaceId::OceanShallow, ..c });
            filled = filled + 1;
        }
        i = i + 1;
    }
    grid.interior_holes_filled = filled;
}

/// Water restricted to the sea-connected cells.
pub open spec fn sea_only(water: Seq<bool>) -> Seq<bool> {
    Seq::new(water.len(), |i: int| water[i] && connected_to_sea(water, i))
}

proof fn lemma_reach_in_sea_only(water: Seq<bool>, i: int, k: nat)
    requires
        water.len() == 97344,
        reaches_sea_within(water, i, k),
    ensures
        reaches_sea_within(sea_only(water), i, k),
    decreases k,
{
    let w2 = sea_only(water);
    assert(connected_to_sea(water, i));
    assert(w2[i]);
    if k > 0 {
        let k1 = (k - 1) as nat;
        if reach_via(water, step4(i, 0), k1) {
            lemma_reach_in_sea_only(water, step4(i, 0), k1);
        }
        if reach_via(water, step4(i, 1), k1) {
            lemma_reach_in_sea_only(water, step4(i, 1), k1);
        }
        if reach_via(water, step4(i, 2), k1) {
            lemma_reach_in_sea_only(water, step4(i, 2), k1);
        }
        if reach_via(water, step4(i, 3), k1) {
            lemma_reach_in_sea_only(water, step4(i, 3), k1);
        }
    }
}

/// After hole filling, every water cell left on the grid is connected to the
/// open sea: the island has no interior ocean holes.
pub proof fn law_no_interior_holes(cells: Seq<CellData>, i: int)
    requires
        cells.len() == 97344,
        valid_cell(i),
        !hole_filled_cell(cells, i).role.land(),
    ensures
        connected_to_sea(water_of(Seq::new(97344, |j: int| hole_filled_cell(cells, j))), i),
{
    let after = Seq::new(97344, |j: int| hole_filled_cell(cells, j));
    let w = water_of(cells);
    assert(water_of(after) =~= sea_only(w));
    assert(connected_to_sea(w, i));
    let k = choose|k: nat| reaches_sea_within(w, i, k);
    lemma_reach_in_sea_only(w, i, k);
    assert(reaches_sea_within(water_of(after), i, k));
}

} // verus!

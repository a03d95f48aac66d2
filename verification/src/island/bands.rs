//! Stages 2 and 3 of generation: beach bands, coast locking, the biome split
//! and the painting of base surfaces. Noise is sampled by the caller; each
//! stage takes one discrete sample per cell.

use vstd::prelude::*;
use crate::island::types::{Biome, CellData, TerrainRole, SurfaceId};
use crate::island::grid::{IslandGenGrid, CELL_COUNT, valid_cell};
use crate::island::recipe::IslandGenRecipe;
use crate::island::surfaces::{
    spec_default_surface_for_role, default_surface_for_role, spec_beach_surface_for, beach_surface_for,
    spec_biome_field_pool, biome_field_pool, pool_weight, spec_weighted_pick, weighted_pick,
};

verus! {

/// Local beach widths of a land cell, in cells: the band `width` from the
/// coast noise and its outer and mid thresholds.
#[derive(Clone, Copy, Debug, PartialEq, Eq, Structural)]
pub struct BeachBand {
    pub width: u16,
    pub outer: u16,
    pub mid: u16,
}

/// Role of a land cell at distance `d` from water in band `b`.
pub open spec fn band_role(b: BeachBand, d: u16) -> TerrainRole {
    if b.width == 0 || d == 0 {
        TerrainRole::Interior
    } else if d <= b.outer {
        TerrainRole::BeachOuter
    } else if d <= b.mid {
        TerrainRole::BeachMid
    } else if d <= b.width {
        TerrainRole::BeachInner
    } else {
        TerrainRole::Interior
    }
}

/// Cell `c` after beach assignment with band `b`.
pub open spec fn beached_cell(c: CellData, b: BeachBand) -> CellData {
    if !c.role.land() {
        c
    } else if b.width == 0 || c.dist_to_water == 0 {
        CellData { role: TerrainRole::Interior, ..c }
    } else {
        let role = band_role(b, c.dist_to_water);
        CellData { role, surface: spec_default_surface_for_role(role, None), ..c }
    }
}

/// Split land into outer, mid and inner beach bands and interior by the
/// distance to water.
pub fn assign_beach_roles(grid: &mut IslandGenGrid, bands: &Vec<BeachBand>)
    requires
        old(grid).wf(),
        bands@.len() == 97344,
    ensures
        final(grid).wf(),
        final(grid).recipe == old(grid).recipe,
        final(grid).interior_holes_filled == old(grid).interior_holes_filled,
        forall|i: int| valid_cell(i) ==> #[trigger] final(grid).cells@[i] == beached_cell(old(grid).cells@[i], bands@[i]),
{
    let mut i: usize = 0;
    while i < CELL_COUNT
        invariant
            i <= CELL_COUNT,
            bands@.len() == 97344,
            grid.wf(),
            grid.recipe == old(grid).recipe,
            grid.interior_holes_filled == old(grid).interior_holes_filled,
            forall|j: int| 0 <= j < i ==> #[trigger] grid.cells@[j] == beached_cell(old(grid).cells@[j], bands@[j]),
            forall|j: int| i <= j < 97344 ==> #[trigger] grid.cells@[j] == old(grid).cells@[j],
        decreases CELL_COUNT - i,
    {
        let c = grid.cells[i];
        if c.role.is_land() {
            let b = bands[i];
            let d = c.dist_to_water;
            if b.width == 0 || d == 0 {
                grid.cells.set(i, CellData { role: TerrainRole::Interior, ..c });
            } else {
                let role = if d <= b.outer {
                    TerrainRole::BeachOuter
                } else if d <= b.mid {
                    TerrainRole::BeachMid
                } else if d <= b.width {
                    TerrainRole::BeachInner
                } else {
                    TerrainRole::Interior
                };
                grid.cells.set(i, CellData { role, surface: default_surface_for_role(role, None), ..c });
            }
        }
        i = i + 1;
    }
}

/// Cell `c` with its role locked when it is ocean or beach.
pub open spec fn coast_locked_cell(c: CellData) -> CellData {
    if c.role.ocean() || c.role.beach() { CellData { role_locked: true, ..c } } else { c }
}

/// Lock ocean and beach roles so later stages cannot overwrite the coast.
pub fn lock_coast_roles(grid: &mut IslandGenGrid)
    requires
        old(grid).wf(),
    ensures
        final(grid).wf(),
        final(grid).recipe == old(grid).recipe,
        final(grid).interior_holes_filled == old(grid).interior_holes_filled,
        forall|i: int| valid_cell(i) ==> #[trigger] final(grid).cells@[i] == coast_locked_cell(old(grid).cells@[i]),
{
    let mut i: usize = 0;
    while i < CELL_COUNT
        invariant
            i <= CELL_COUNT,
            grid.wf(),
            grid.recipe == old(grid).recipe,
            grid.interior_holes_filled == old(grid).interior_holes_filled,
            forall|j: int| 0 <= j < i ==> #[trigger] grid.cells@[j] == coast_locked_cell(old(grid).cells@[j]),
            forall|j: int| i <= j < 97344 ==> #[trigger] grid.cells@[j] == old(grid).cells@[j],
        decreases CELL_COUNT - i,
    {
        let c = grid.cells[i];
        if c.role.is_ocean() || c.role.is_beach() {
            grid.cells.set(i, CellData { role_locked: true, ..c });
        }
        i = i + 1;
    }
}

/// Which side of the warped biome split a land cell lies on, and whether it
/// lies within the seam half-width of the split line.
#[derive(Clone, Copy, Debug, PartialEq, Eq, Structural)]
pub struct SplitSample {
    pub on_primary_side: bool,
    pub near_seam: bool,
}

/// Biome of a cell on the given side of the split.
pub open spec fn side_biome(recipe: IslandGenRecipe, on_primary_side: bool) -> Biome {
    if recipe.primary_west == on_primary_side { recipe.primary_biome } else { recipe.secondary_biome }
}

/// Cell `c` after the biome split.
pub open spec fn regioned_cell(recipe: IslandGenRecipe, c: CellData, s: SplitSample) -> CellData {
    if !c.role.land() {
        c
    } else {
        let seam = s.near_seam && (c.role == TerrainRole::Interior || c.role == TerrainRole::BiomeSeam);
        CellData {
            biome: Some(side_biome(recipe, s.on_primary_side)),
            biome_seam: seam,
            role: if seam && !c.role_locked { TerrainRole::BiomeSeam } else { c.role },
            ..c
        }
    }
}

/// Assign each land cell the biome of its side of the split and mark the seam.
pub fn assign_biome_regions(grid: &mut IslandGenGrid, recipe: &IslandGenRecipe, split: &Vec<SplitSample>)
    requires
        old(grid).wf(),
        split@.len() == 97344,
    ensures
        final(grid).wf(),
        final(grid).recipe == old(grid).recipe,
        final(grid).interior_holes_filled == old(grid).interior_holes_filled,
        forall|i: int| valid_cell(i) ==> #[trigger] final(grid).cells@[i] == regioned_cell(*recipe, old(grid).cells@[i], split@[i]),
{
    let mut i: usize = 0;
    while i < CELL_COUNT
        invariant
            i <= CELL_COUNT,
            split@.len() == 97344,
            grid.wf(),
            grid.recipe == old(grid).recipe,
            grid.interior_holes_filled == old(grid).interior_holes_filled,
            forall|j: int| 0 <= j < i ==> #[trigger] grid.cells@[j] == regioned_cell(*recipe, old(grid).cells@[j], split@[j]),
            forall|j: int| i <= j < 97344 ==> #[trigger] grid.cells@[j] == old(grid).cells@[j],
        decreases CELL_COUNT - i,
    {
        let c = grid.cells[i];
        if c.role.is_land() {
            let s = split[i];
            let biome = if recipe.primary_west == s.on_primary_side { recipe.primary_biome } else { recipe.secondary_biome };
            let seam = s.near_seam && (c.role == TerrainRole::Interior || c.role == TerrainRole::BiomeSeam);
            let role = if seam && !c.role_locked { TerrainRole::BiomeSeam } else { c.role };
            grid.cells.set(i, CellData { biome: Some(biome), biome_seam: seam, role, ..c });
        }
        i = i + 1;
    }
}

/// Total weight of a biome's field pool.
pub open spec fn field_pool_total(biome: Biome) -> int {
    pool_weight(spec_biome_field_pool(biome))
}

/// Total weight of a biome's field pool, by which the caller scales a zone
/// noise draw in [0, 0.999] into a pick target.
pub fn field_pool_total_weight(biome: Biome) -> (r: u32)
    ensures
        r == field_pool_total(biome),
{
    let pool = biome_field_pool(biome);
    let mut total: u32 = 0;
    let mut i: usize = 0;
    assert(pool@.skip(0) =~= pool@);
    proof { crate::island::surfaces::lemma_pool_weight_bound(pool@); }
    while i < pool.len()
        invariant
            pool@ == spec_biome_field_pool(biome),
            i <= pool.len(),
            pool@.len() < 100,
            total as int + pool_weight(pool@.skip(i as int)) == pool_weight(pool@),
            total as int <= 255 * i,
        decreases pool.len() - i,
    {
        proof {
            assert(pool@.skip(i as int).drop_first() =~= pool@.skip(i + 1));
        }
        total = total + pool[i].1 as u32;
        i = i + 1;
    }
    assert(pool@.skip(pool@.len() as int) =~= Seq::<(SurfaceId, u8)>::empty());
    total
}

/// The noise samples that paint one cell: the coast noise compared with 0 and
/// 0.2, the sign of the seam noise (true keeps the cell's own biome), and the
/// zone-field draw scaled by each biome's field-pool total (Haunted,
/// Volcanic, Cliff).
#[derive(Clone, Copy, Debug, PartialEq, Eq, Structural)]
pub struct PaintSample {
    pub coast_above_zero: bool,
    pub coast_above_fifth: bool,
    pub seam_keeps_biome: bool,
    pub zone_target_haunted: u32,
    pub zone_target_volcanic: u32,
    pub zone_target_cliff: u32,
}

/// The zone target of `p` for biome `b`.
pub open spec fn zone_target(p: PaintSample, b: Biome) -> u32 {
    match b {
        Biome::Haunted => p.zone_target_haunted,
        Biome::Volcanic => p.zone_target_volcanic,
        Biome::Cliff => p.zone_target_cliff,
    }
}

/// The other biome of the recipe's pair.
pub open spec fn other_biome(recipe: IslandGenRecipe, b: Biome) -> Biome {
    if b == recipe.primary_biome { recipe.secondary_biome } else { recipe.primary_biome }
}

/// Biome of a cell, the recipe's primary when unset.
pub open spec fn biome_or_primary(recipe: IslandGenRecipe, c: CellData) -> Biome {
    match c.biome {
        Some(b) => b,
        None => recipe.primary_biome,
    }
}

/// Cell `c` after base painting: beach bands get their beach surface, seam
/// cells may take the other biome, and every other land cell draws from its
/// biome's weighted field pool.
pub open spec fn painted_cell(recipe: IslandGenRecipe, c: CellData, p: PaintSample) -> CellData {
    if c.role.ocean() {
        c
    } else {
        let biome = biome_or_primary(recipe, c);
        if c.role.beach() {
            CellData { surface: spec_beach_surface_for(biome, c.role, p.coast_above_zero, p.coast_above_fifth), ..c }
        } else {
            let eff = if c.role == TerrainRole::BiomeSeam && !p.seam_keeps_biome { other_biome(recipe, biome) } else { biome };
            CellData {
                surface: spec_weighted_pick(spec_biome_field_pool(eff), zone_target(p, eff) as int),
                ..c
            }
        }
    }
}

/// Paint the large coherent biome ground fields and the beach strips.
pub fn paint_biome_base_surfaces(grid: &mut IslandGenGrid, recipe: &IslandGenRecipe, paint: &Vec<PaintSample>)
    requires
        old(grid).wf(),
        paint@.len() == 97344,
    ensures
        final(grid).wf(),
        final(grid).recipe == old(grid).recipe,
        final(grid).interior_holes_filled == old(grid).interior_holes_filled,
        forall|i: int| valid_cell(i) ==> #[trigger] final(grid).cells@[i] == painted_cell(*recipe, old(grid).cells@[i], paint@[i]),
{
    let mut i: usize = 0;
    while i < CELL_COUNT
        invariant
            i <= CELL_COUNT,
            paint@.len() == 97344,
            grid.wf(),
            grid.recipe == old(grid).recipe,
            grid.interior_holes_filled == old(grid).interior_holes_filled,
            forall|j: int| 0 <= j < i ==> #[trigger] grid.cells@[j] == painted_cell(*recipe, old(grid).cells@[j], paint@[j]),
            forall|j: int| i <= j < 97344 ==> #[trigger] grid.cells@[j] == old(grid).cells@[j],
        decreases CELL_COUNT - i,
    {
        let c = grid.cells[i];
        if !c.role.is_ocean() {
            let p = paint[i];
            let biome = match c.biome {
                Some(b) => b,
                None => recipe.primary_biome,
            };
            if c.role.is_beach() {
                let s = beach_surface_for(biome, c.role, p.coast_above_zero, p.coast_above_fifth);
                grid.cells.set(i, CellData { surface: s, ..c });
            } else {
                let eff = if c.role == TerrainRole::BiomeSeam && !p.seam_keeps_biome {
                    crate::island::recipe::other_active_biome(recipe, biome)
                } else {
                    biome
                };
                let target = match eff {
                    Biome::Haunted => p.zone_target_haunted,
                    Biome::Volcanic => p.zone_target_volcanic,
                    Biome::Cliff => p.zone_target_cliff,
                };
                let pool = biome_field_pool(eff);
                let s = weighted_pick(&pool, target);
                grid.cells.set(i, CellData { surface: s, ..c });
            }
        }
        i = i + 1;
    }
}

/// Cell `c` after the final beach pass.
pub open spec fn beach_finalized_cell(recipe: IslandGenRecipe, c: CellData, p: PaintSample) -> CellData {
    if c.role.beach() {
        CellData {
            surface: spec_beach_surface_for(biome_or_primary(recipe, c), c.role, p.coast_above_zero, p.coast_above_fifth),
            transition: None,
            ..c
        }
    } else {
        c
    }
}

/// Repaint beach surfaces from the coast noise and clear their transitions.
pub fn finalize_beach_surfaces(grid: &mut IslandGenGrid, recipe: &IslandGenRecipe, paint: &Vec<PaintSample>)
    requires
        old(grid).wf(),
        paint@.len() == 97344,
    ensures
        final(grid).wf(),
        final(grid).recipe == old(grid).recipe,
        final(grid).interior_holes_filled == old(grid).interior_holes_filled,
        forall|i: int| valid_cell(i) ==> #[trigger] final(grid).cells@[i] == beach_finalized_cell(*recipe, old(grid).cells@[i], paint@[i]),
{
    let mut i: usize = 0;
    while i < CELL_COUNT
        invariant
            i <= CELL_COUNT,
            paint@.len() == 97344,
            grid.wf(),
            grid.recipe == old(grid).recipe,
            grid.interior_holes_filled == old(grid).interior_holes_filled,
            forall|j: int| 0 <= j < i ==> #[trigger] grid.cells@[j] == beach_finalized_cell(*recipe, old(grid).cells@[j], paint@[j]),
            forall|j: int| i <= j < 97344 ==> #[trigger] grid.cells@[j] == old(grid).cells@[j],
        decreases CELL_COUNT - i,
    {
        let c = grid.cells[i];
        if c.role.is_beach() {
            let p = paint[i];
            let biome = match c.biome {
                Some(b) => b,
                None => recipe.primary_biome,
            };
            let s = beach_surface_for(biome, c.role, p.coast_above_zero, p.coast_above_fifth);
            grid.cells.set(i, CellData { surface: s, transition: None, ..c });
        }
        i = i + 1;
    }
}

/// Cell `c` after the final surface pass: ocean cells show their ocean tile and
/// a land cell left with an ocean tile takes its role's default surface.
pub open spec fn final_surface_cell(recipe: IslandGenRecipe, c: CellData) -> CellData {
    if c.role.ocean() {
        CellData {
            surface: if c.role == TerrainRole::OceanShallow { SurfaceId::OceanShallow } else { SurfaceId::OceanDeep },
            ..c
        }
    } else if c.surface == SurfaceId::OceanDeep || c.surface == SurfaceId::OceanShallow {
        CellData { surface: spec_default_surface_for_role(c.role, Some(biome_or_primary(recipe, c))), ..c }
    } else {
        c
    }
}

/// Final surface pass.
pub fn assign_final_surfaces(grid: &mut IslandGenGrid, recipe: &IslandGenRecipe)
    requires
        old(grid).wf(),
    ensures
        final(grid).wf(),
        final(grid).recipe == old(grid).recipe,
        final(grid).interior_holes_filled == old(grid).interior_holes_filled,
        forall|i: int| valid_cell(i) ==> #[trigger] final(grid).cells@[i] == final_surface_cell(*recipe, old(grid).cells@[i]),
{
    let mut i: usize = 0;
    while i < CELL_COUNT
        invariant
            i <= CELL_COUNT,
            grid.wf(),
            grid.recipe == old(grid).recipe,
            grid.interior_holes_filled == old(grid).interior_holes_filled,
            forall|j: int| 0 <= j < i ==> #[trigger] grid.cells@[j] == final_surface_cell(*recipe, old(grid).cells@[j]),
            forall|j: int| i <= j < 97344 ==> #[trigger] grid.cells@[j] == old(grid).cells@[j],
        decreases CELL_COUNT - i,
    {
        let c = grid.cells[i];
        if c.role.is_ocean() {
            let s = if c.role == TerrainRole::OceanShallow { SurfaceId::OceanShallow } else { SurfaceId::OceanDeep };
            grid.cells.set(i, CellData { surface: s, ..c });
        } else if c.surface == SurfaceId::OceanDeep || c.surface == SurfaceId::OceanShallow {
            let b = match c.biome {
                Some(b) => b,
                None => recipe.primary_biome,
            };
            grid.cells.set(i, CellData { surface: default_surface_for_role(c.role, Some(b)), ..c });
        }
        i = i + 1;
    }
}

} // verus!

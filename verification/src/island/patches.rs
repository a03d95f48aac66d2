//! Stage 4 of generation: accent patches, village clearings, volcanic scars,
//! surface-edge smoothing and the small-patch merge. Random draws and noise
//! are made by the caller; the grid edits and the deterministic passes live
//! here.

use vstd::prelude::*;
use crate::island::types::{Biome, CellData, TerrainRole, SurfaceId};
use crate::island::grid::{IslandGenGrid, CELL_COUNT, valid_cell, in_grid, flat_index, col_of, row_of, step4, lemma_step4, neighbor4, lemma_flat_index};
use crate::island::surfaces::{spec_slug_rank, slug_rank, lemma_slug_rank_injective, spec_village_surfaces, village_surfaces};

verus! {

/// Minimum connected size (in cells) of an interior detail patch.
pub const MIN_PATCH: u16 = 9;

/// Interior or seam land, the cells that blend and form patches.
pub open spec fn blendable(c: CellData) -> bool {
    c.role == TerrainRole::Interior || c.role == TerrainRole::BiomeSeam
}

/// Interior or seam land.
pub fn is_blendable_interior(cell: &CellData) -> (r: bool)
    ensures
        r == blendable(*cell),
{
    cell.role == TerrainRole::Interior || cell.role == TerrainRole::BiomeSeam
}

/// An interior cell not yet in a patch can seed one.
pub fn patch_seedable(cell: &CellData) -> (r: bool)
    ensures
        r == (cell.role == TerrainRole::Interior && cell.patch_id == 0),
{
    cell.role == TerrainRole::Interior && cell.patch_id == 0
}

/// Cell `c` after being painted into patch `patch_id` with `surface`;
/// ocean cells are never painted.
pub open spec fn patched_cell(c: CellData, patch_id: u32, surface: SurfaceId) -> CellData {
    if c.role.ocean() { c } else { CellData { patch_id, surface, ..c } }
}

/// Paint `(col, row)` into a patch; off-grid and ocean cells are left alone.
pub fn set_patch_cell(grid: &mut IslandGenGrid, col: i32, row: i32, patch_id: u32, surface: SurfaceId)
    requires
        old(grid).wf(),
    ensures
        final(grid).wf(),
        final(grid).recipe == old(grid).recipe,
        final(grid).interior_holes_filled == old(grid).interior_holes_filled,
        in_grid(col as int, row as int) ==> final(grid).cells@ == old(grid).cells@.update(
            flat_index(col as int, row as int),
            patched_cell(old(grid).cells@[flat_index(col as int, row as int)], patch_id, surface),
        ),
        !in_grid(col as int, row as int) ==> final(grid).cells@ == old(grid).cells@,
{
    if let Some(i) = IslandGenGrid::idx(col, row) {
        let c = grid.cells[i];
        if !c.role.is_ocean() {
            grid.cells.set(i, CellData { patch_id, surface, ..c });
        } else {
            assert(grid.cells@ =~= old(grid).cells@.update(i as int, c));
        }
    }
}

/// A cell a growing patch of `biome` may take: interior, unpatched, same biome.
pub fn patch_grow_candidate(grid: &IslandGenGrid, col: i32, row: i32, biome: Biome) -> (r: bool)
    requires
        grid.wf(),
    ensures
        r == (in_grid(col as int, row as int) && {
            let c = grid.cells@[flat_index(col as int, row as int)];
            c.patch_id == 0 && c.role == TerrainRole::Interior && c.biome == Some(biome)
        }),
{
    match grid.cell(col, row) {
        Some(c) => c.patch_id == 0 && c.role == TerrainRole::Interior && c.biome == Some(biome),
        None => false,
    }
}

/// A lattice cell where a village clearing may be stamped.
pub fn village_clearing_eligible(grid: &IslandGenGrid, col: i32, row: i32) -> (r: bool)
    requires
        grid.wf(),
    ensures
        r == (in_grid(col as int, row as int) && {
            let c = grid.cells@[flat_index(col as int, row as int)];
            c.role == TerrainRole::Interior && c.patch_id == 0
        }),
{
    match grid.cell(col, row) {
        Some(c) => c.role == TerrainRole::Interior && c.patch_id == 0,
        None => false,
    }
}

/// Village tile of the `cursor`-th clearing, cycling through every tile.
pub open spec fn village_tile(cursor: int) -> SurfaceId {
    spec_village_surfaces()[cursor % 16]
}

/// Cell `c` inside the square of a clearing stamped with `surface` under
/// patch id `id`: unpatched interior cells become clearing.
pub open spec fn cleared_cell(c: CellData, surface: SurfaceId, id: u32) -> CellData {
    if c.role == TerrainRole::Interior && c.patch_id == 0 {
        CellData { role: TerrainRole::Clearing, surface, patch_id: id, ..c }
    } else {
        c
    }
}

/// Stamp a village clearing of `radius` around `(col, row)`: every unpatched
/// interior cell of the square becomes clearing ground with the next village
/// tile. Returns the advanced tile cursor.
pub fn stamp_village_clearing(grid: &mut IslandGenGrid, col: i32, row: i32, radius: i32, tile_cursor: usize) -> (next: usize)
    requires
        old(grid).wf(),
        0 <= col < 312,
        0 <= row < 312,
        1 <= radius <= 2,
        tile_cursor < 1000000,
    ensures
        next == tile_cursor + 1,
        final(grid).wf(),
        final(grid).recipe == old(grid).recipe,
        final(grid).interior_holes_filled == old(grid).interior_holes_filled,
        forall|i: int| valid_cell(i) ==> #[trigger] final(grid).cells@[i] == (if col - radius <= col_of(i) <= col + radius
            && row - radius <= row_of(i) <= row + radius {
            cleared_cell(old(grid).cells@[i], village_tile(tile_cursor as int), (9000 + tile_cursor + 1) as u32)
        } else {
            old(grid).cells@[i]
        }),
{
    let tiles = village_surfaces();
    let surface = tiles[tile_cursor % 16];
    let next = tile_cursor + 1;
    let id = (9000 + next) as u32;
    let ghost c0 = grid.cells@;
    let mut dr: i32 = -radius;
    while dr <= radius
        invariant
            -radius <= dr <= radius + 1,
            1 <= radius <= 2,
            0 <= col < 312,
            0 <= row < 312,
            grid.wf(),
            c0 == old(grid).cells@,
            grid.recipe == old(grid).recipe,
            grid.interior_holes_filled == old(grid).interior_holes_filled,
            forall|i: int| valid_cell(i) ==> #[trigger] grid.cells@[i] == (if col - radius <= col_of(i) <= col + radius
                && row - radius <= row_of(i) < row + dr {
                cleared_cell(c0[i], surface, id)
            } else {
                c0[i]
            }),
        decreases radius + 1 - dr,
    {
        let mut dc: i32 = -radius;
        while dc <= radius
            invariant
                -radius <= dc <= radius + 1,
                -radius <= dr <= radius,
                1 <= radius <= 2,
                0 <= col < 312,
                0 <= row < 312,
                grid.wf(),
                grid.recipe == old(grid).recipe,
                grid.interior_holes_filled == old(grid).interior_holes_filled,
                forall|i: int| valid_cell(i) ==> #[trigger] grid.cells@[i] == (if (col - radius <= col_of(i) <= col + radius
                    && row - radius <= row_of(i) < row + dr) || (row_of(i) == row + dr && col - radius <= col_of(i) < col + dc) {
                    cleared_cell(c0[i], surface, id)
                } else {
                    c0[i]
                }),
            decreases radius + 1 - dc,
        {
            if let Some(i) = IslandGenGrid::idx(col + dc, row + dr) {
                let c = grid.cells[i];
                if c.role == TerrainRole::Interior && c.patch_id == 0 {
                    grid.cells.set(i, CellData { role: TerrainRole::Clearing, surface, patch_id: id, ..c });
                }
            }
            dc = dc + 1;
        }
        dr = dr + 1;
    }
    next
}

/// A cell where a volcanic scar may land: an unlocked volcanic interior cell
/// inside a patch.
pub fn scar_candidate(grid: &IslandGenGrid, idx: usize) -> (r: bool)
    requires
        grid.wf(),
        valid_cell(idx as int),
    ensures
        r == ({
            let c = grid.cells@[idx as int];
            c.role == TerrainRole::Interior && !c.role_locked && c.biome == Some(Biome::Volcanic) && c.patch_id != 0
        }),
{
    let c = grid.cells[idx];
    c.role == TerrainRole::Interior && !c.role_locked && c.biome == Some(Biome::Volcanic) && c.patch_id != 0
}

/// Turn cell `idx` into a volcanic scar: a lava crack or cooling lava.
pub fn place_scar(grid: &mut IslandGenGrid, idx: usize, lava_crack: bool)
    requires
        old(grid).wf(),
        valid_cell(idx as int),
    ensures
        final(grid).wf(),
        final(grid).recipe == old(grid).recipe,
        final(grid).interior_holes_filled == old(grid).interior_holes_filled,
        final(grid).cells@ == old(grid).cells@.update(idx as int, CellData {
            role: TerrainRole::SpecialScar,
            surface: if lava_crack { SurfaceId::VolcanicLavaCrack } else { SurfaceId::VolcanicCoolingLava },
            ..old(grid).cells@[idx as int]
        }),
{
    let c = grid.cells[idx];
    let surface = if lava_crack { SurfaceId::VolcanicLavaCrack } else { SurfaceId::VolcanicCoolingLava };
    grid.cells.set(idx, CellData { role: TerrainRole::SpecialScar, surface, ..c });
}

/// Order of tally entries: by count, then by slug.
pub open spec fn tally_le(a: (SurfaceId, u32), b: (SurfaceId, u32)) -> bool {
    a.1 < b.1 || (a.1 == b.1 && spec_slug_rank(a.0) <= spec_slug_rank(b.0))
}

/// The surface of the greatest tally entry by count then slug, the last
/// one among equal entries; `None` for an empty tally.
pub open spec fn is_tally_max(counts: Seq<(SurfaceId, u32)>, r: Option<SurfaceId>) -> bool {
    match r {
        None => counts.len() == 0,
        Some(s) => exists|j: int|
            0 <= j < counts.len() && counts[j].0 == s && (forall|i: int| 0 <= i < counts.len() ==> tally_le(#[trigger] counts[i], counts[j]))
                && (forall|i: int| j < i < counts.len() ==> !tally_le(counts[j], #[trigger] counts[i])),
    }
}

/// Highest-count surface, ties broken by slug order.
pub fn pick_max_surface(counts: &Vec<(SurfaceId, u32)>) -> (r: Option<SurfaceId>)
    ensures
        is_tally_max(counts@, r),
{
    if counts.len() == 0 {
        return None;
    }
    let mut best: usize = 0;
    let mut i: usize = 1;
    while i < counts.len()
        invariant
            1 <= i <= counts.len(),
            best < i,
            forall|k: int| 0 <= k < i ==> tally_le(#[trigger] counts@[k], counts@[best as int]),
            forall|k: int| best < k < i ==> !tally_le(counts@[best as int], #[trigger] counts@[k]),
        decreases counts.len() - i,
    {
        let a = counts[best];
        let b = counts[i];
        if a.1 < b.1 || (a.1 == b.1 && slug_rank(a.0) <= slug_rank(b.0)) {
            best = i;
        }
        i = i + 1;
    }
    Some(counts[best].0)
}

/// First index of surface `s` in a tally, or -1.
pub open spec fn tally_index(counts: Seq<(SurfaceId, u32)>, s: SurfaceId) -> int
    decreases counts.len(),
{
    if counts.len() == 0 {
        -1
    } else if tally_index(counts.drop_last(), s) >= 0 {
        tally_index(counts.drop_last(), s)
    } else if counts.last().0 == s {
        counts.len() - 1
    } else {
        -1
    }
}

pub proof fn lemma_tally_index(counts: Seq<(SurfaceId, u32)>, s: SurfaceId)
    ensures
        -1 <= tally_index(counts, s) < counts.len(),
        tally_index(counts, s) >= 0 ==> counts[tally_index(counts, s)].0 == s,
        forall|k: int| 0 <= k < counts.len() && (tally_index(counts, s) < 0 || k < tally_index(counts, s)) ==> #[trigger] counts[k].0 != s,
    decreases counts.len(),
{
    if counts.len() > 0 {
        lemma_tally_index(counts.drop_last(), s);
        assert forall|k: int| 0 <= k < counts.len() - 1 implies #[trigger] counts[k] == counts.drop_last()[k] by {}
    }
}

/// Count one more `surface`: increment its entry, or append it with count 1.
pub fn bump_count(counts: &mut Vec<(SurfaceId, u32)>, surface: SurfaceId)
    requires
        forall|k: int| 0 <= k < old(counts)@.len() ==> (#[trigger] old(counts)@[k]).1 < u32::MAX,
    ensures
        ({
            let i = tally_index(old(counts)@, surface);
            if i >= 0 {
                final(counts)@ == old(counts)@.update(i, (surface, (old(counts)@[i].1 + 1) as u32))
            } else {
                final(counts)@ == old(counts)@.push((surface, 1u32))
            }
        }),
{
    proof { lemma_tally_index(counts@, surface); }
    let mut i: usize = 0;
    while i < counts.len()
        invariant
            i <= counts.len(),
            counts@ == old(counts)@,
            forall|k: int| 0 <= k < i ==> (#[trigger] counts@[k]).0 != surface,
            forall|k: int| 0 <= k < old(counts)@.len() ==> (#[trigger] old(counts)@[k]).1 < u32::MAX,
            -1 <= tally_index(old(counts)@, surface) < old(counts)@.len(),
            tally_index(old(counts)@, surface) >= 0 ==> old(counts)@[tally_index(old(counts)@, surface)].0 == surface,
            forall|k: int| 0 <= k < old(counts)@.len() && (tally_index(old(counts)@, surface) < 0 || k < tally_index(old(counts)@, surface)) ==> #[trigger] old(counts)@[k].0 != surface,
        decreases counts.len() - i,
    {
        if counts[i].0 == surface {
            let c = counts[i].1;
            counts.set(i, (surface, c + 1));
            return;
        }
        i = i + 1;
    }
    counts.push((surface, 1));
}


/// Column offset of 8-neighbour `k` (N, E, S, W, NE, SE, SW, NW).
pub open spec fn dc8(k: int) -> int {
    if k == 1 || k == 4 || k == 5 { 1 } else if k == 3 || k == 6 || k == 7 { -1 } else { 0 }
}

/// Row offset of 8-neighbour `k`.
pub open spec fn dr8(k: int) -> int {
    if k == 0 || k == 4 || k == 7 { -1 } else if k == 2 || k == 5 || k == 6 { 1 } else { 0 }
}

/// 8-neighbour `k` of cell `i`, or -1 off the grid.
pub open spec fn step8(i: int, k: int) -> int {
    if in_grid(col_of(i) + dc8(k), row_of(i) + dr8(k)) { flat_index(col_of(i) + dc8(k), row_of(i) + dr8(k)) } else { -1 }
}

fn neighbor8(i: usize, k: usize) -> (r: Option<usize>)
    requires
        valid_cell(i as int),
        k < 8,
    ensures
        step8(i as int, k as int) == -1 ==> r is None,
        step8(i as int, k as int) != -1 ==> r == Some(step8(i as int, k as int) as usize),
        r matches Some(n) ==> valid_cell(n as int),
{
    let col = (i % 312) as i32;
    let row = (i / 312) as i32;
    let dc: i32 = if k == 1 || k == 4 || k == 5 { 1 } else if k == 3 || k == 6 || k == 7 { -1 } else { 0 };
    let dr: i32 = if k == 0 || k == 4 || k == 7 { -1 } else if k == 2 || k == 5 || k == 6 { 1 } else { 0 };
    IslandGenGrid::idx(col + dc, row + dr)
}

/// Surface of 8-neighbour `k` of `i` when it is blendable.
pub open spec fn nb_surface(blend: Seq<bool>, snap: Seq<SurfaceId>, i: int, k: int) -> Option<SurfaceId> {
    let n = step8(i, k);
    if n != -1 && blend[n] { Some(snap[n]) } else { None }
}

/// Blendable 8-neighbours among the first `upto` showing surface `s`.
pub open spec fn nb_count_upto(blend: Seq<bool>, snap: Seq<SurfaceId>, i: int, s: SurfaceId, upto: int) -> int
    decreases upto,
{
    if upto <= 0 {
        0
    } else {
        nb_count_upto(blend, snap, i, s, upto - 1) + if nb_surface(blend, snap, i, upto - 1) == Some(s) { 1int } else { 0 }
    }
}

/// Blendable 8-neighbours showing surface `s`.
pub open spec fn nb_count(blend: Seq<bool>, snap: Seq<SurfaceId>, i: int, s: SurfaceId) -> int {
    nb_count_upto(blend, snap, i, s, 8)
}

/// `m` is the most common blendable-neighbour surface of `i`, the greater
/// slug among equals.
pub open spec fn is_nb_majority(blend: Seq<bool>, snap: Seq<SurfaceId>, i: int, m: SurfaceId) -> bool {
    &&& exists|k: int| 0 <= k < 8 && nb_surface(blend, snap, i, k) == Some(m)
    &&& forall|k: int| 0 <= k < 8 && (#[trigger] nb_surface(blend, snap, i, k)) is Some ==> {
        let t = nb_surface(blend, snap, i, k)->0;
        nb_count(blend, snap, i, t) < nb_count(blend, snap, i, m) || (nb_count(blend, snap, i, t) == nb_count(blend, snap, i, m)
            && spec_slug_rank(t) <= spec_slug_rank(m))
    }
}

/// New surface of blendable cell `i` in a smoothing pass: a cell whose own
/// surface is shared by at most 2 blendable neighbours flips to the
/// neighbour majority when that differs and covers at least 3 neighbours.
pub open spec fn smoothed_surface(blend: Seq<bool>, snap: Seq<SurfaceId>, i: int) -> Option<SurfaceId> {
    let own = snap[i];
    if blend[i] && nb_count(blend, snap, i, own) <= 2 && (exists|m: SurfaceId| is_nb_majority(blend, snap, i, m)) {
        let m = choose|m: SurfaceId| is_nb_majority(blend, snap, i, m);
        if m != own && nb_count(blend, snap, i, m) >= 3 { Some(m) } else { None }
    } else {
        None
    }
}

proof fn lemma_nb_majority_unique(blend: Seq<bool>, snap: Seq<SurfaceId>, i: int, a: SurfaceId, b: SurfaceId)
    requires
        is_nb_majority(blend, snap, i, a),
        is_nb_majority(blend, snap, i, b),
    ensures
        a == b,
{
    let ka = choose|k: int| 0 <= k < 8 && nb_surface(blend, snap, i, k) == Some(a);
    let kb = choose|k: int| 0 <= k < 8 && nb_surface(blend, snap, i, k) == Some(b);
    assert(nb_surface(blend, snap, i, ka) is Some);
    assert(nb_surface(blend, snap, i, kb) is Some);
    lemma_slug_rank_injective(a);
    lemma_slug_rank_injective(b);
}

proof fn lemma_nb_count_bound(blend: Seq<bool>, snap: Seq<SurfaceId>, i: int, s: SurfaceId, upto: int)
    requires
        0 <= upto <= 8,
    ensures
        0 <= nb_count_upto(blend, snap, i, s, upto) <= upto,
        nb_count_upto(blend, snap, i, s, upto) > 0 ==> exists|k: int| 0 <= k < upto && nb_surface(blend, snap, i, k) == Some(s),
    decreases upto,
{
    if upto > 0 {
        lemma_nb_count_bound(blend, snap, i, s, upto - 1);
    }
}

proof fn lemma_nb_count_zero(blend: Seq<bool>, snap: Seq<SurfaceId>, i: int, s: SurfaceId, upto: int)
    requires
        0 <= upto <= 8,
        forall|kk: int| 0 <= kk < upto ==> nb_surface(blend, snap, i, kk) != Some(s),
    ensures
        nb_count_upto(blend, snap, i, s, upto) == 0,
    decreases upto,
{
    if upto > 0 {
        lemma_nb_count_zero(blend, snap, i, s, upto - 1);
    }
}

/// The tally over the first `k` neighbours: distinct surfaces, each with its
/// count so far, covering every neighbour seen.
pub open spec fn tally_inv(counts: Seq<(SurfaceId, u32)>, blend: Seq<bool>, snap: Seq<SurfaceId>, i: int, k: int) -> bool {
    &&& counts.len() <= k
    &&& forall|a: int, b: int| 0 <= a < b < counts.len() ==> (#[trigger] counts[a]).0 != (#[trigger] counts[b]).0
    &&& forall|a: int| 0 <= a < counts.len() ==> (#[trigger] counts[a]).1 == nb_count_upto(blend, snap, i, counts[a].0, k)
    &&& forall|a: int| 0 <= a < counts.len() ==> (#[trigger] counts[a]).1 >= 1
    &&& forall|kk: int| 0 <= kk < k && (#[trigger] nb_surface(blend, snap, i, kk)) is Some ==> exists|a: int|
        0 <= a < counts.len() && counts[a].0 == nb_surface(blend, snap, i, kk)->0
}

/// The surface cell `i` takes in a smoothing pass, if it flips.
fn smooth_cell(blend: &Vec<bool>, snap: &Vec<SurfaceId>, i: usize) -> (r: Option<SurfaceId>)
    requires
        blend@.len() == 97344,
        snap@.len() == 97344,
        valid_cell(i as int),
    ensures
        r == smoothed_surface(blend@, snap@, i as int),
{
    if !blend[i] {
        return None;
    }
    let own = snap[i];
    let mut same: u8 = 0;
    let mut counts: Vec<(SurfaceId, u32)> = Vec::new();
    let mut k: usize = 0;
    while k < 8
        invariant
            k <= 8,
            blend@.len() == 97344,
            snap@.len() == 97344,
            valid_cell(i as int),
            own == snap@[i as int],
            same == nb_count_upto(blend@, snap@, i as int, own, k as int),
            tally_inv(counts@, blend@, snap@, i as int, k as int),
        decreases 8 - k,
    {
        proof { lemma_nb_count_bound(blend@, snap@, i as int, own, k as int); }
        match neighbor8(i, k) {
            Some(n) => {
                if blend[n] {
                    let s = snap[n];
                    if s == own {
                        same = same + 1;
                    }
                    let ghost before = counts@;
                    proof {
                        lemma_tally_index(before, s);
                        assert forall|a: int| 0 <= a < before.len() implies (#[trigger] before[a]).1 < u32::MAX by {
                            lemma_nb_count_bound(blend@, snap@, i as int, before[a].0, k as int);
                        }
                    }
                    bump_count(&mut counts, s);
                    proof {
                        let ti = tally_index(before, s);
                        assert(nb_surface(blend@, snap@, i as int, k as int) == Some(s));
                        if ti < 0 {
                            assert forall|kk: int| 0 <= kk < k implies nb_surface(blend@, snap@, i as int, kk) != Some(s) by {
                                if nb_surface(blend@, snap@, i as int, kk) == Some(s) {
                                    let a = choose|a: int| 0 <= a < before.len() && before[a].0 == nb_surface(blend@, snap@, i as int, kk)->0;
                                    assert(before[a].0 != s);
                                }
                            }
                            lemma_nb_count_zero(blend@, snap@, i as int, s, k as int);
                        }
                        assert forall|a: int| 0 <= a < counts@.len() implies (#[trigger] counts@[a]).1 == nb_count_upto(blend@, snap@, i as int, counts@[a].0, k + 1) by {
                            if a < before.len() {
                                if a != ti {
                                    assert(before[a].0 != s);
                                }
                            }
                        }
                        assert forall|kk: int| 0 <= kk < k + 1 && (#[trigger] nb_surface(blend@, snap@, i as int, kk)) is Some implies exists|a: int|
                            0 <= a < counts@.len() && counts@[a].0 == nb_surface(blend@, snap@, i as int, kk)->0 by {
                            if kk < k {
                                let a = choose|a: int| 0 <= a < before.len() && before[a].0 == nb_surface(blend@, snap@, i as int, kk)->0;
                                assert(counts@[a].0 == before[a].0);
                            } else if ti >= 0 {
                                assert(counts@[ti].0 == s);
                            } else {
                                assert(counts@[counts@.len() - 1].0 == s);
                            }
                        }
                        assert forall|a: int, b: int| 0 <= a < b < counts@.len() implies (#[trigger] counts@[a]).0 != (#[trigger] counts@[b]).0 by {
                            if b == before.len() {
                                assert(before[a].0 != s);
                            }
                        }
                    }
                } else {
                    proof {
                        assert forall|a: int| 0 <= a < counts@.len() implies (#[trigger] counts@[a]).1 == nb_count_upto(blend@, snap@, i as int, counts@[a].0, k + 1) by {}
                    }
                }
            },
            None => {
                proof {
                    assert forall|a: int| 0 <= a < counts@.len() implies (#[trigger] counts@[a]).1 == nb_count_upto(blend@, snap@, i as int, counts@[a].0, k + 1) by {}
                }
            },
        }
        k = k + 1;
    }
    if same > 2 {
        return None;
    }
    match pick_max_surface(&counts) {
        Some(maj) => {
            let ghost j = choose|j: int| 0 <= j < counts@.len() && counts@[j].0 == maj
                && (forall|a: int| 0 <= a < counts@.len() ==> tally_le(#[trigger] counts@[a], counts@[j]))
                && (forall|a: int| j < a < counts@.len() ==> !tally_le(counts@[j], #[trigger] counts@[a]));
            proof {
                lemma_nb_count_bound(blend@, snap@, i as int, maj, 8);
                assert(counts@[j].1 >= 1);
                assert(is_nb_majority(blend@, snap@, i as int, maj)) by {
                    assert forall|kk: int| 0 <= kk < 8 && (#[trigger] nb_surface(blend@, snap@, i as int, kk)) is Some implies {
                        let t = nb_surface(blend@, snap@, i as int, kk)->0;
                        nb_count(blend@, snap@, i as int, t) < nb_count(blend@, snap@, i as int, maj) || (nb_count(blend@, snap@, i as int, t) == nb_count(blend@, snap@, i as int, maj)
                            && spec_slug_rank(t) <= spec_slug_rank(maj))
                    } by {
                        let a = choose|a: int| 0 <= a < counts@.len() && counts@[a].0 == nb_surface(blend@, snap@, i as int, kk)->0;
                        assert(tally_le(counts@[a], counts@[j]));
                    }
                }
                let m = choose|m: SurfaceId| is_nb_majority(blend@, snap@, i as int, m);
                lemma_nb_majority_unique(blend@, snap@, i as int, m, maj);
                assert(smoothed_surface(blend@, snap@, i as int) == (if maj != own && counts@[j].1 >= 3 { Some(maj) } else { None }));
            }
            let mut n: u32 = 0;
            let mut t: usize = 0;
            while t < counts.len()
                invariant
                    t <= counts@.len(),
                    0 <= j < counts@.len(),
                    counts@[j].0 == maj,
                    forall|a: int, b: int| 0 <= a < b < counts@.len() ==> (#[trigger] counts@[a]).0 != (#[trigger] counts@[b]).0,
                    forall|a: int| 0 <= a < t && (#[trigger] counts@[a]).0 == maj ==> n == counts@[a].1,
                    forall|a: int| 0 <= a < t ==> (#[trigger] counts@[a]).0 != maj || n == counts@[a].1,
                    t > j ==> n == counts@[j].1,
                    smoothed_surface(blend@, snap@, i as int) == (if maj != own && counts@[j].1 >= 3 { Some(maj) } else { None }),
                decreases counts@.len() - t,
            {
                if counts[t].0 == maj {
                    n = counts[t].1;
                    return if maj != own && n >= 3 { Some(maj) } else { None };
                }
                t = t + 1;
            }
            if maj != own && n >= 3 { Some(maj) } else { None }
        },
        None => {
            proof {
                if exists|m: SurfaceId| is_nb_majority(blend@, snap@, i as int, m) {
                    let m = choose|m: SurfaceId| is_nb_majority(blend@, snap@, i as int, m);
                    let kk = choose|kk: int| 0 <= kk < 8 && nb_surface(blend@, snap@, i as int, kk) == Some(m);
                    assert(nb_surface(blend@, snap@, i as int, kk) is Some);
                }
            }
            None
        },
    }
}

/// Blendable flags of the cells.
pub open spec fn blend_of(cells: Seq<CellData>) -> Seq<bool> {
    Seq::new(cells.len(), |i: int| blendable(cells[i]))
}

/// Surfaces of the cells.
pub open spec fn surfaces_of(cells: Seq<CellData>) -> Seq<SurfaceId> {
    Seq::new(cells.len(), |i: int| cells[i].surface)
}

/// Cell `i` after one smoothing pass over `cells`.
pub open spec fn edge_smoothed_cell(cells: Seq<CellData>, i: int) -> CellData {
    match smoothed_surface(blend_of(cells), surfaces_of(cells), i) {
        Some(m) => CellData { surface: m, patch_id: 0, ..cells[i] },
        None => cells[i],
    }
}

/// One double-buffered smoothing pass.
pub open spec fn edge_smooth_pass(cells: Seq<CellData>) -> Seq<CellData> {
    Seq::new(cells.len(), |i: int| edge_smoothed_cell(cells, i))
}

/// One pass of surface-edge smoothing.
pub fn smooth_surface_edges_pass(grid: &mut IslandGenGrid)
    requires
        old(grid).wf(),
    ensures
        final(grid).wf(),
        final(grid).recipe == old(grid).recipe,
        final(grid).interior_holes_filled == old(grid).interior_holes_filled,
        final(grid).cells@ == edge_smooth_pass(old(grid).cells@),
{
    let ghost c0 = grid.cells@;
    let mut blend: Vec<bool> = Vec::new();
    let mut snap: Vec<SurfaceId> = Vec::new();
    let mut i: usize = 0;
    while i < CELL_COUNT
        invariant
            i <= CELL_COUNT,
            grid.cells@ == c0,
            c0.len() == 97344,
            blend@.len() == i,
            snap@.len() == i,
            forall|j: int| 0 <= j < i ==> #[trigger] blend@[j] == blendable(c0[j]),
            forall|j: int| 0 <= j < i ==> #[trigger] snap@[j] == c0[j].surface,
        decreases CELL_COUNT - i,
    {
        blend.push(is_blendable_interior(&grid.cells[i]));
        snap.push(grid.cells[i].surface);
        i = i + 1;
    }
    assert(blend@ =~= blend_of(c0));
    assert(snap@ =~= surfaces_of(c0));
    let mut i: usize = 0;
    while i < CELL_COUNT
        invariant
            i <= CELL_COUNT,
            grid.wf(),
            c0 == old(grid).cells@,
            c0.len() == 97344,
            blend@ == blend_of(c0),
            snap@ == surfaces_of(c0),
            grid.recipe == old(grid).recipe,
            grid.interior_holes_filled == old(grid).interior_holes_filled,
            forall|j: int| 0 <= j < i ==> #[trigger] grid.cells@[j] == edge_smoothed_cell(c0, j),
            forall|j: int| i <= j < 97344 ==> #[trigger] grid.cells@[j] == c0[j],
        decreases CELL_COUNT - i,
    {
        if let Some(m) = smooth_cell(&blend, &snap, i) {
            let c = grid.cells[i];
            grid.cells.set(i, CellData { surface: m, patch_id: 0, ..c });
        }
        i = i + 1;
    }
    assert(grid.cells@ =~= edge_smooth_pass(old(grid).cells@));
}

/// Cellular smoothing of interior surfaces: three double-buffered passes in
/// which a cell sharing its surface with at most 2 of its 8 blendable
/// neighbours flips to the neighbour majority.
pub fn smooth_surface_edges(grid: &mut IslandGenGrid)
    requires
        old(grid).wf(),
    ensures
        final(grid).wf(),
        final(grid).recipe == old(grid).recipe,
        final(grid).interior_holes_filled == old(grid).interior_holes_filled,
        final(grid).cells@ == edge_smooth_pass(edge_smooth_pass(edge_smooth_pass(old(grid).cells@))),
{
    smooth_surface_edges_pass(grid);
    smooth_surface_edges_pass(grid);
    smooth_surface_edges_pass(grid);
}

} // verus!

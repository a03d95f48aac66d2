//! Island health counters shown by the lab.

use vstd::prelude::*;
use std::collections::HashSet;
use vstd::relations::{sorted_by, total_ordering};
use crate::island::types::{Biome, CellData, TerrainRole, GridStats};
use crate::island::grid::{IslandGenGrid, CELL_COUNT, valid_cell};
use crate::island::transition::{spec_display_block_transition, display_block_transition};
use crate::island::components::surface_component_sizes;
use crate::island::patch_graph::patch_sizes;

verus! {

broadcast use vstd::std_specs::hash::group_hash_axioms;

/// Number of cells satisfying `p`.
pub open spec fn count_where(cells: Seq<CellData>, p: spec_fn(CellData) -> bool) -> nat
    decreases cells.len(),
{
    if cells.len() == 0 {
        0
    } else {
        count_where(cells.drop_last(), p) + if p(cells.last()) { 1nat } else { 0nat }
    }
}

proof fn lemma_count_where_step(cells: Seq<CellData>, p: spec_fn(CellData) -> bool, i: int)
    requires
        0 <= i < cells.len(),
    ensures
        count_where(cells.take(i + 1), p) == count_where(cells.take(i), p) + if p(cells[i]) { 1nat } else { 0nat },
        count_where(cells.take(i), p) <= i,
    decreases i,
{
    assert(cells.take(i + 1).drop_last() =~= cells.take(i));
    if i > 0 {
        lemma_count_where_step(cells, p, i - 1);
    }
}

pub open spec fn is_ocean_cell() -> spec_fn(CellData) -> bool { |c: CellData| c.role.ocean() }
pub open spec fn is_land_cell() -> spec_fn(CellData) -> bool { |c: CellData| !c.role.ocean() }
pub open spec fn has_role(r: TerrainRole) -> spec_fn(CellData) -> bool { |c: CellData| c.role == r }
pub open spec fn is_interior_cell() -> spec_fn(CellData) -> bool {
    |c: CellData| c.role == TerrainRole::Interior || c.role == TerrainRole::BiomeSeam || c.role == TerrainRole::SpecialScar
        || c.role == TerrainRole::Clearing
}
pub open spec fn has_biome(b: Biome) -> spec_fn(CellData) -> bool { |c: CellData| c.biome == Some(b) }
pub open spec fn is_seam_cell() -> spec_fn(CellData) -> bool { |c: CellData| c.biome_seam }
pub open spec fn has_transition() -> spec_fn(CellData) -> bool { |c: CellData| c.transition is Some }
pub open spec fn is_locked() -> spec_fn(CellData) -> bool { |c: CellData| c.role_locked }

/// Number of display blocks, among the first `n` in row-major order, that
/// carry a transition.
pub open spec fn transition_blocks(cells: Seq<CellData>, n: int) -> nat
    decreases n,
{
    if n <= 0 {
        0
    } else {
        transition_blocks(cells, n - 1) + if spec_display_block_transition(cells, (n - 1) % 156, (n - 1) / 156) is Some { 1nat } else { 0nat }
    }
}

proof fn lemma_transition_blocks_bound(cells: Seq<CellData>, n: int)
    requires
        n >= 0,
    ensures
        transition_blocks(cells, n) <= n,
    decreases n,
{
    if n > 0 {
        lemma_transition_blocks_bound(cells, n - 1);
    }
}

/// Number of distinct nonzero patch ids.
pub open spec fn patch_id_set(cells: Seq<CellData>) -> Set<u32> {
    Set::new(|p: u32| p != 0 && exists|i: int| 0 <= i < cells.len() && cells[i].patch_id == p)
}

/// The `<=` order on sizes.
pub open spec fn size_le() -> spec_fn(u32, u32) -> bool {
    |x: u32, y: u32| x <= y
}

proof fn lemma_size_le_total()
    ensures
        total_ordering(size_le()),
{
}

/// Sort `v` ascending.
pub fn sort_sizes(v: &mut Vec<u32>)
    ensures
        final(v)@.len() == old(v)@.len(),
        final(v)@.to_multiset() == old(v)@.to_multiset(),
        sorted_by(final(v)@, size_le()),
{
    broadcast use vstd::seq_lib::to_multiset_update, vstd::multiset::group_multiset_axioms;
    let n = v.len();
    if n < 2 {
        return;
    }
    let mut i: usize = 1;
    while i < n
        invariant
            1 <= i <= n,
            n == v@.len(),
            v@.to_multiset() == old(v)@.to_multiset(),
            forall|a: int, b: int| 0 <= a < b < i ==> v@[a] <= v@[b],
        decreases n - i,
    {
        let mut j: usize = i;
        while j > 0 && v[j - 1] > v[j]
            invariant
                0 <= j <= i < n,
                n == v@.len(),
                v@.to_multiset() == old(v)@.to_multiset(),
                forall|a: int, b: int| 0 <= a < b <= i && a != j && b != j ==> v@[a] <= v@[b],
                forall|b: int| j < b <= i ==> v@[j as int] < v@[b],
                0 < j < i ==> v@[j - 1] <= v@[j + 1],
            decreases j,
        {
            let x = v[j - 1];
            let y = v[j];
            let ghost s0 = v@;
            v.set(j - 1, y);
            v.set(j, x);
            proof {
                let s1 = s0.update(j - 1, y);
                assert(s0[j - 1] == x && s0.contains(x));
                vstd::seq_lib::to_multiset_contains(s0, x);
                vstd::seq_lib::to_multiset_update(s0, j - 1, y);
                vstd::seq_lib::to_multiset_update(s1, j as int, x);
                assert(v@ == s1.update(j as int, x));
                assert(v@.to_multiset() =~= s0.to_multiset());
            }
            j = j - 1;
        }
        i = i + 1;
    }
    proof {
        assert(sorted_by(v@, size_le())) by {
            assert forall|a: int, b: int| 0 <= a < b < v@.len() implies #[trigger] (size_le())(v@[a], v@[b]) by {}
        }
    }
}

/// The minimum, median and single-cell count of a list of component sizes:
/// the first and middle entries of the sizes sorted ascending, and the number
/// of sizes equal to 1; all 0 for no components.
pub open spec fn size_summary(sizes: Seq<u32>) -> (u32, u32, u32) {
    if sizes.len() == 0 {
        (0, 0, 0)
    } else {
        let sorted = sizes.sort_by(size_le());
        (sorted[0], sorted[(sizes.len() / 2) as int], sizes.filter(|s: u32| s == 1).len() as u32)
    }
}

/// Minimum, median and isolated count of component sizes.
pub fn summarize_sizes(sizes: &Vec<u32>) -> (r: (u32, u32, u32))
    requires
        sizes@.len() <= 97344,
    ensures
        r == size_summary(sizes@),
{
    if sizes.len() == 0 {
        return (0, 0, 0);
    }
    let mut sorted = sizes.clone();
    assert(sorted@ == sizes@);
    sort_sizes(&mut sorted);
    proof {
        lemma_size_le_total();
        sizes@.lemma_sort_by_ensures(size_le());
        vstd::seq_lib::lemma_sorted_unique(sorted@, sizes@.sort_by(size_le()), size_le());
    }
    let mut isolated: u32 = 0;
    let mut k: usize = 0;
    while k < sizes.len()
        invariant
            k <= sizes@.len(),
            sizes@.len() <= 97344,
            isolated == sizes@.take(k as int).filter(|s: u32| s == 1).len(),
            isolated <= k,
        decreases sizes@.len() - k,
    {
        proof {
            assert(sizes@.take(k + 1).drop_last() =~= sizes@.take(k as int));
            sizes@.take(k as int).lemma_filter_push(sizes@[k as int], |s: u32| s == 1);
            assert(sizes@.take(k + 1) =~= sizes@.take(k as int).push(sizes@[k as int]));
        }
        if sizes[k] == 1 {
            isolated = isolated + 1;
        }
        k = k + 1;
    }
    assert(sizes@.take(sizes@.len() as int) =~= sizes@);
    (sorted[0], sorted[sorted.len() / 2], isolated)
}

/// The counters of a grid, with `sizes` the sizes of its equal-surface
/// interior components.
pub open spec fn spec_grid_stats(cells: Seq<CellData>, holes: u32, sizes: Seq<u32>) -> GridStats {
    GridStats {
        ocean: count_where(cells, is_ocean_cell()) as u32,
        land: count_where(cells, is_land_cell()) as u32,
        beach_outer: count_where(cells, has_role(TerrainRole::BeachOuter)) as u32,
        beach_mid: count_where(cells, has_role(TerrainRole::BeachMid)) as u32,
        beach_inner: count_where(cells, has_role(TerrainRole::BeachInner)) as u32,
        interior: count_where(cells, is_interior_cell()) as u32,
        haunted: count_where(cells, has_biome(Biome::Haunted)) as u32,
        volcanic: count_where(cells, has_biome(Biome::Volcanic)) as u32,
        biome_seam: count_where(cells, is_seam_cell()) as u32,
        patch_ids: patch_id_set(cells).len() as u32,
        transition_cells: count_where(cells, has_transition()) as u32,
        display_transitions: transition_blocks(cells, 24336) as u32,
        role_locked: count_where(cells, is_locked()) as u32,
        min_patch_size: size_summary(sizes).0,
        median_patch_size: size_summary(sizes).1,
        isolated_tiles: size_summary(sizes).2,
        interior_holes_filled: holes,
    }
}

fn add_if(c: u32, b: bool) -> (r: u32)
    requires
        c < 97344,
    ensures
        r == c + if b { 1int } else { 0 },
{
    if b { c + 1 } else { c }
}

/// Island health counters.
pub fn compute_grid_stats(grid: &IslandGenGrid) -> (r: GridStats)
    requires
        grid.wf(),
    ensures
        r == spec_grid_stats(grid.cells@, grid.interior_holes_filled, patch_sizes(grid.cells@)),
{
    let cells = &grid.cells;
    let ghost cs = cells@;
    let mut ocean: u32 = 0;
    let mut land: u32 = 0;
    let mut beach_outer: u32 = 0;
    let mut beach_mid: u32 = 0;
    let mut beach_inner: u32 = 0;
    let mut interior: u32 = 0;
    let mut haunted: u32 = 0;
    let mut volcanic: u32 = 0;
    let mut biome_seam: u32 = 0;
    let mut transition_cells: u32 = 0;
    let mut role_locked: u32 = 0;
    let mut ids: HashSet<u32> = HashSet::new();
    let mut i: usize = 0;
    while i < CELL_COUNT
        invariant
            i <= CELL_COUNT,
            cs == cells@,
            cs.len() == 97344,
            ocean == count_where(cs.take(i as int), is_ocean_cell()),
            land == count_where(cs.take(i as int), is_land_cell()),
            beach_outer == count_where(cs.take(i as int), has_role(TerrainRole::BeachOuter)),
            beach_mid == count_where(cs.take(i as int), has_role(TerrainRole::BeachMid)),
            beach_inner == count_where(cs.take(i as int), has_role(TerrainRole::BeachInner)),
            interior == count_where(cs.take(i as int), is_interior_cell()),
            haunted == count_where(cs.take(i as int), has_biome(Biome::Haunted)),
            volcanic == count_where(cs.take(i as int), has_biome(Biome::Volcanic)),
            biome_seam == count_where(cs.take(i as int), is_seam_cell()),
            transition_cells == count_where(cs.take(i as int), has_transition()),
            role_locked == count_where(cs.take(i as int), is_locked()),
            forall|p: u32| ids@.contains(p) <==> (p != 0 && exists|j: int| 0 <= j < i && cs[j].patch_id == p),
        decreases CELL_COUNT - i,
    {
        let c = cells[i];
        proof {
            lemma_count_where_step(cs, is_ocean_cell(), i as int);
            lemma_count_where_step(cs, is_land_cell(), i as int);
            lemma_count_where_step(cs, has_role(TerrainRole::BeachOuter), i as int);
            lemma_count_where_step(cs, has_role(TerrainRole::BeachMid), i as int);
            lemma_count_where_step(cs, has_role(TerrainRole::BeachInner), i as int);
            lemma_count_where_step(cs, is_interior_cell(), i as int);
            lemma_count_where_step(cs, has_biome(Biome::Haunted), i as int);
            lemma_count_where_step(cs, has_biome(Biome::Volcanic), i as int);
            lemma_count_where_step(cs, is_seam_cell(), i as int);
            lemma_count_where_step(cs, has_transition(), i as int);
            lemma_count_where_step(cs, is_locked(), i as int);
        }
        role_locked = add_if(role_locked, c.role_locked);
        ocean = add_if(ocean, c.role.is_ocean());
        land = add_if(land, !c.role.is_ocean());
        beach_outer = add_if(beach_outer, c.role == TerrainRole::BeachOuter);
        beach_mid = add_if(beach_mid, c.role == TerrainRole::BeachMid);
        beach_inner = add_if(beach_inner, c.role == TerrainRole::BeachInner);
        interior = add_if(interior, c.role == TerrainRole::Interior || c.role == TerrainRole::BiomeSeam
            || c.role == TerrainRole::SpecialScar || c.role == TerrainRole::Clearing);
        haunted = add_if(haunted, c.biome == Some(Biome::Haunted));
        volcanic = add_if(volcanic, c.biome == Some(Biome::Volcanic));
        biome_seam = add_if(biome_seam, c.biome_seam);
        transition_cells = add_if(transition_cells, c.transition.is_some());
        if c.patch_id != 0 {
            ids.insert(c.patch_id);
        }
        proof {
            assert forall|p: u32| ids@.contains(p) <==> (p != 0 && exists|j: int| 0 <= j < i + 1 && cs[j].patch_id == p) by {
                if p != 0 && (exists|j: int| 0 <= j < i + 1 && cs[j].patch_id == p) && p != c.patch_id {
                    let j = choose|j: int| 0 <= j < i + 1 && cs[j].patch_id == p;
                    assert(j < i);
                }
            }
        }
        i = i + 1;
    }
    proof {
        assert(cs.take(97344) =~= cs);
        assert(ids@ =~= patch_id_set(cs));
    }
    let patch_ids = ids.len() as u32;
    let mut display_transitions: u32 = 0;
    let mut b: usize = 0;
    while b < 24336
        invariant
            b <= 24336,
            grid.wf(),
            display_transitions == transition_blocks(grid.cells@, b as int),
        decreases 24336 - b,
    {
        proof { lemma_transition_blocks_bound(grid.cells@, b as int); }
        let mc = (b % 156) as i32;
        let mr = (b / 156) as i32;
        if display_block_transition(grid, &grid.recipe, mc, mr).is_some() {
            display_transitions = display_transitions + 1;
        }
        b = b + 1;
    }
    let sizes = surface_component_sizes(grid);
    let (min_patch_size, median_patch_size, isolated_tiles) = summarize_sizes(&sizes);
    let r = GridStats {
        ocean,
        land,
        beach_outer,
        beach_mid,
        beach_inner,
        interior,
        haunted,
        volcanic,
        biome_seam,
        patch_ids,
        transition_cells,
        display_transitions,
        role_locked,
        min_patch_size,
        median_patch_size,
        isolated_tiles,
        interior_holes_filled: grid.interior_holes_filled,
    };
    assert(r == spec_grid_stats(grid.cells@, grid.interior_holes_filled, sizes@));
    r
}

impl IslandGenGrid {
    /// Island health counters.
    pub fn stats(&self) -> (r: GridStats)
        requires
            self.wf(),
        ensures
            r == spec_grid_stats(self.cells@, self.interior_holes_filled, patch_sizes(self.cells@)),
    {
        compute_grid_stats(self)
    }
}

} // verus!

//! Connected components of equal-surface interior land (4-neighbour), the
//! small-patch merge built on them, and the component-size overlays.

use vstd::prelude::*;
use std::collections::HashSet;
use crate::island::types::{CellData, TerrainRole, SurfaceId};
use crate::island::surfaces::lemma_slug_rank_injective;
use crate::island::grid::{IslandGenGrid, CELL_COUNT, valid_cell, step4, lemma_step4, neighbor4};
use crate::island::sea::{count_false, lemma_count_false_mark};
use crate::island::patches::{blendable, is_blendable_interior, bump_count, pick_max_surface, is_tally_max, MIN_PATCH};
use crate::island::patch_graph::{
    patch_step, reaches, closed, lemma_step_back, lemma_reaches_self, lemma_reaches_step, lemma_reaches_valid,
    lemma_closed_reaches, lemma_closed_excludes, lemma_reaches_sym, component_set, component_size,
    is_component_root, sizes_upto, patch_sizes, lemma_component_same, is_patch_path, lemma_reaches_trans,
    adjacent, steps_uniform, merges_patches, patch_count, lemma_patch_count_drops, lemma_patch_roots_finite,
};
use crate::island::border_vote::{
    slot_cell, interior_vote, land_vote, interior_border, land_border, first_land_role, wins_vote, tallies,
    lemma_tallies_empty, lemma_tallies_bump, lemma_tally_winner, lemma_tally_none, lemma_first_land_role_stable,
};

verus! {

broadcast use vstd::std_specs::hash::group_hash_axioms;

/// Directions `d..4` of the search step from cell `c`: each unmarked
/// interior neighbour of `surface` is marked and pushed on the stack.
pub open spec fn dfs_push(cells: Seq<CellData>, surface: SurfaceId, c: int, d: int, v: Seq<bool>, st: Seq<usize>) -> (Seq<bool>, Seq<usize>)
    decreases 4 - d,
{
    if d >= 4 {
        (v, st)
    } else {
        let n = step4(c, d);
        if n != -1 && !v[n] && blendable(cells[n]) && cells[n].surface == surface {
            dfs_push(cells, surface, c, d + 1, v.update(n, true), st.push(n as usize))
        } else {
            dfs_push(cells, surface, c, d + 1, v, st)
        }
    }
}

/// Depth-first patch search: pop the top of the stack, list it, and push its
/// unmarked same-surface interior neighbours (up, right, down, left); at most
/// `fuel` steps. Gives the final marks and the cells in the order listed.
pub open spec fn dfs(cells: Seq<CellData>, surface: SurfaceId, fuel: nat, v: Seq<bool>, st: Seq<usize>, comp: Seq<usize>) -> (Seq<bool>, Seq<usize>)
    decreases fuel,
{
    if fuel == 0 || st.len() == 0 {
        (v, comp)
    } else {
        let c = st.last();
        let next = dfs_push(cells, surface, c as int, 0, v, st.drop_last());
        dfs(cells, surface, (fuel - 1) as nat, next.0, next.1, comp.push(c))
    }
}

/// The search of the patch of `seed` over cells not yet marked in `v`.
pub open spec fn spec_explore(cells: Seq<CellData>, v: Seq<bool>, seed: int) -> (Seq<bool>, Seq<usize>) {
    dfs(cells, cells[seed].surface, 97345, v.update(seed, true), seq![seed as usize], Seq::empty())
}

/// Explore the patch of `seed` over cells not yet `visited`, marking them.
/// Returns the cells found, the seed first, each once. Patches are read on
/// `base`, a grid that agrees with `cells` on every unmarked cell: the cells
/// found lie in the patch of `seed` there, and every patch step from a found
/// cell leads to a marked cell. When the marks were closed under patch steps
/// of `base`, they still are and the cells found are the whole patch.
fn explore_component(cells: &Vec<CellData>, visited: &mut Vec<bool>, seed: usize, Ghost(base): Ghost<Seq<CellData>>) -> (comp: Vec<usize>)
    requires
        cells@.len() == 97344,
        base.len() == 97344,
        forall|j: int| 0 <= j < 97344 && !old(visited)@[j] ==> #[trigger] base[j] == cells@[j],
        old(visited)@.len() == 97344,
        valid_cell(seed as int),
        !old(visited)@[seed as int],
        blendable(cells@[seed as int]),
    ensures
        final(visited)@.len() == 97344,
        comp@.len() >= 1,
        comp@[0] == seed,
        comp@.no_duplicates(),
        forall|t: int| 0 <= t < comp@.len() ==> valid_cell(#[trigger] comp@[t] as int) && !old(visited)@[comp@[t] as int]
            && blendable(cells@[comp@[t] as int]) && cells@[comp@[t] as int].surface == cells@[seed as int].surface
            && reaches(base, seed as int, comp@[t] as int),
        forall|j: int| valid_cell(j) && old(visited)@[j] ==> #[trigger] final(visited)@[j],
        forall|j: int| valid_cell(j) && #[trigger] final(visited)@[j] && !old(visited)@[j] ==> comp@.contains(j as usize),
        forall|t: int| 0 <= t < comp@.len() ==> final(visited)@[#[trigger] comp@[t] as int],
        forall|t: int, b: int| 0 <= t < comp@.len() && #[trigger] patch_step(base, comp@[t] as int, b) ==> final(visited)@[b],
        count_false(final(visited)@) + comp@.len() == count_false(old(visited)@),
        closed(base, old(visited)@) ==> closed(base, final(visited)@),
        closed(base, old(visited)@) ==> forall|j: int| #[trigger] reaches(base, seed as int, j) ==> comp@.contains(j as usize),
        (final(visited)@, comp@) == spec_explore(cells@, old(visited)@, seed as int),
{
    let ghost v0 = visited@;
    let ghost cs = cells@;
    let surface = cells[seed].surface;
    proof {
        lemma_count_false_mark(visited@, seed as int);
        lemma_reaches_self(base, seed as int);
        lemma_count_false_bound(v0);
    }
    visited.set(seed, true);
    let mut comp: Vec<usize> = Vec::new();
    let mut stack: Vec<usize> = Vec::new();
    stack.push(seed);
    assert(stack@[0] == seed);
    assert(stack@ =~= seq![seed]);
    while stack.len() > 0
        invariant
            cells@ == cs,
            cs.len() == 97344,
            base.len() == 97344,
            forall|j: int| 0 <= j < 97344 && !v0[j] ==> #[trigger] base[j] == cs[j],
            visited@.len() == 97344,
            v0.len() == 97344,
            valid_cell(seed as int),
            surface == cs[seed as int].surface,
            forall|t: int| 0 <= t < stack@.len() ==> valid_cell(#[trigger] stack@[t] as int) && !v0[stack@[t] as int]
                && visited@[stack@[t] as int] && blendable(cs[stack@[t] as int]) && cs[stack@[t] as int].surface == surface
                && reaches(base, seed as int, stack@[t] as int),
            forall|t: int| 0 <= t < comp@.len() ==> valid_cell(#[trigger] comp@[t] as int) && !v0[comp@[t] as int]
                && visited@[comp@[t] as int] && blendable(cs[comp@[t] as int]) && cs[comp@[t] as int].surface == surface
                && reaches(base, seed as int, comp@[t] as int),
            comp@.no_duplicates(),
            stack@.no_duplicates(),
            forall|t: int, u: int| 0 <= t < stack@.len() && 0 <= u < comp@.len() ==> stack@[t] != comp@[u],
            forall|t: int, b: int| 0 <= t < comp@.len() && #[trigger] patch_step(base, comp@[t] as int, b) ==> visited@[b],
            comp@.len() == 0 ==> stack@ == seq![seed],
            comp@.len() > 0 ==> comp@[0] == seed,
            forall|j: int| valid_cell(j) && v0[j] ==> #[trigger] visited@[j],
            forall|j: int| valid_cell(j) && #[trigger] visited@[j] && !v0[j] ==> comp@.contains(j as usize) || stack@.contains(j as usize),
            count_false(visited@) + comp@.len() + stack@.len() == count_false(v0),
            count_false(v0) <= 97344,
            dfs(cs, surface, (97345 - comp@.len()) as nat, visited@, stack@, comp@) == spec_explore(cs, v0, seed as int),
        decreases 2 * count_false(visited@) + stack@.len(),
    {
        let ghost s_full = stack@;
        let ghost v_pop = visited@;
        let c = stack.pop().unwrap();
        let ghost st_pop = stack@;
        let ghost comp0 = comp@;
        comp.push(c);
        proof {
            assert(s_full.len() > 0);
            assert(comp0.len() < 97345);
            assert(st_pop == s_full.drop_last() && c == s_full.last());
        }
        proof {
            assert(s_full =~= stack@.push(c));
            assert forall|j: int| valid_cell(j) && #[trigger] visited@[j] && !v0[j] implies comp@.contains(j as usize) || stack@.contains(j as usize) by {
                if comp0.contains(j as usize) {
                    let t = choose|t: int| 0 <= t < comp0.len() && comp0[t] == j as usize;
                    assert(comp@[t] == j as usize);
                } else if s_full.contains(j as usize) {
                    let t = choose|t: int| 0 <= t < s_full.len() && s_full[t] == j as usize;
                    if t < stack@.len() {
                        assert(stack@[t] == j as usize);
                    } else {
                        assert(comp@[comp@.len() - 1] == j as usize);
                    }
                }
            }
            assert forall|t: int, u: int| 0 <= t < comp@.len() && 0 <= u < comp@.len() && t != u implies comp@[t] != comp@[u] by {
                if t < comp0.len() && u < comp0.len() {
                } else if t < comp0.len() {
                    assert(s_full[s_full.len() - 1] == c);
                    assert(comp@[t] == comp0[t]);
                } else {
                    assert(s_full[s_full.len() - 1] == c);
                    assert(comp@[u] == comp0[u]);
                }
            }
            assert forall|t: int, u: int| 0 <= t < stack@.len() && 0 <= u < comp@.len() implies stack@[t] != comp@[u] by {
                assert(stack@[t] == s_full[t]);
                if u < comp0.len() {
                    assert(comp@[u] == comp0[u]);
                } else {
                    assert(s_full[s_full.len() - 1] == c);
                    assert(t != s_full.len() - 1);
                }
            }
            assert forall|t: int, u: int| 0 <= t < stack@.len() && 0 <= u < stack@.len() && t != u implies stack@[t] != stack@[u] by {
                assert(stack@[t] == s_full[t] && stack@[u] == s_full[u]);
            }
        }
        let ghost cf_iter = count_false(visited@);
        let ghost sl_iter = stack@.len();
        let mut d: usize = 0;
        while d < 4
            invariant
                d <= 4,
                cells@ == cs,
                base.len() == 97344,
                forall|j: int| 0 <= j < 97344 && !v0[j] ==> #[trigger] base[j] == cs[j],
                count_false(visited@) + stack@.len() == cf_iter + sl_iter,
                count_false(visited@) <= cf_iter,
                cs.len() == 97344,
                visited@.len() == 97344,
                v0.len() == 97344,
                valid_cell(c as int),
                surface == cs[seed as int].surface,
                comp@.len() > 0,
                comp@[0] == seed,
                comp@[comp@.len() - 1] == c,
                forall|t: int| 0 <= t < stack@.len() ==> valid_cell(#[trigger] stack@[t] as int) && !v0[stack@[t] as int]
                    && visited@[stack@[t] as int] && blendable(cs[stack@[t] as int]) && cs[stack@[t] as int].surface == surface
                    && reaches(base, seed as int, stack@[t] as int),
                forall|t: int| 0 <= t < comp@.len() ==> valid_cell(#[trigger] comp@[t] as int) && !v0[comp@[t] as int]
                    && visited@[comp@[t] as int] && blendable(cs[comp@[t] as int]) && cs[comp@[t] as int].surface == surface
                    && reaches(base, seed as int, comp@[t] as int),
                comp@.no_duplicates(),
                stack@.no_duplicates(),
                forall|t: int, u: int| 0 <= t < stack@.len() && 0 <= u < comp@.len() ==> stack@[t] != comp@[u],
                forall|t: int, b: int| 0 <= t < comp@.len() - 1 && #[trigger] patch_step(base, comp@[t] as int, b) ==> visited@[b],
                forall|dd: int| 0 <= dd < d && #[trigger] step4(c as int, dd) != -1
                    && patch_step(base, c as int, step4(c as int, dd)) ==> visited@[step4(c as int, dd)],
                forall|j: int| valid_cell(j) && v0[j] ==> #[trigger] visited@[j],
                forall|j: int| valid_cell(j) && #[trigger] visited@[j] && !v0[j] ==> comp@.contains(j as usize) || stack@.contains(j as usize),
                count_false(visited@) + comp@.len() + stack@.len() == count_false(v0),
                count_false(v0) <= 97344,
                dfs_push(cs, surface, c as int, d as int, visited@, stack@) == dfs_push(cs, surface, c as int, 0, v_pop, st_pop),
                dfs(cs, surface, (97345 - comp0.len()) as nat, v_pop, s_full, comp0) == spec_explore(cs, v0, seed as int),
                comp@ == comp0.push(c),
                0 < 97345 - comp0.len(),
                s_full.len() > 0 && st_pop == s_full.drop_last() && c == s_full.last(),
            decreases 4 - d,
        {
            if let Some(n) = neighbor4(c, d) {
                if !visited[n] && is_blendable_interior(&cells[n]) && cells[n].surface == surface {
                    let ghost vb = visited@;
                    let ghost sb = stack@;
                    let ghost cb = comp@;
                    proof {
                        lemma_count_false_mark(visited@, n as int);
                        assert(patch_step(base, c as int, n as int));
                        lemma_reaches_step(base, seed as int, c as int, n as int);
                    }
                    visited.set(n, true);
                    stack.push(n);
                    proof {
                        assert forall|j: int| valid_cell(j) && #[trigger] visited@[j] && !v0[j] implies comp@.contains(j as usize) || stack@.contains(j as usize) by {
                            if j == n as int {
                                assert(stack@[stack@.len() - 1] == n);
                            } else if cb.contains(j as usize) {
                            } else {
                                let t = choose|t: int| 0 <= t < sb.len() && sb[t] == j as usize;
                                assert(stack@[t] == j as usize);
                            }
                        }
                        assert forall|t: int, u: int| 0 <= t < stack@.len() && 0 <= u < stack@.len() && t != u implies stack@[t] != stack@[u] by {
                            if t < sb.len() && u < sb.len() {
                                assert(stack@[t] == sb[t] && stack@[u] == sb[u]);
                            } else if t < sb.len() {
                                assert(stack@[t] == sb[t]);
                                assert(vb[sb[t] as int]);
                            } else {
                                assert(stack@[u] == sb[u]);
                                assert(vb[sb[u] as int]);
                            }
                        }
                        assert forall|t: int, u: int| 0 <= t < stack@.len() && 0 <= u < comp@.len() implies stack@[t] != comp@[u] by {
                            if t < sb.len() {
                                assert(stack@[t] == sb[t]);
                            } else {
                                assert(vb[comp@[u] as int]);
                            }
                        }
                    }
                }
            }
            proof {
                assert forall|dd: int| 0 <= dd < d + 1 && #[trigger] step4(c as int, dd) != -1
                    && patch_step(base, c as int, step4(c as int, dd)) implies visited@[step4(c as int, dd)] by {
                    if dd == d as int {
                        lemma_step4(c as int, dd);
                    }
                }
            }
            d = d + 1;
        }
        proof {
            assert(dfs_push(cs, surface, c as int, 4, visited@, stack@) == (visited@, stack@));
            assert(dfs(cs, surface, (97345 - comp0.len()) as nat, v_pop, s_full, comp0)
                == dfs(cs, surface, (97345 - comp@.len()) as nat, visited@, stack@, comp@));
            assert forall|t: int, b: int| 0 <= t < comp@.len() && #[trigger] patch_step(base, comp@[t] as int, b) implies visited@[b] by {
                if t == comp@.len() - 1 {
                    let dd = if step4(c as int, 0) == b { 0int } else if step4(c as int, 1) == b { 1int } else if step4(c as int, 2) == b { 2int } else { 3int };
                    assert(step4(c as int, dd) == b);
                }
            }
        }
    }
    proof {
        assert(dfs(cs, surface, (97345 - comp@.len()) as nat, visited@, stack@, comp@) == (visited@, comp@));
        if closed(base, v0) {
            assert forall|a: int, b: int| valid_cell(a) && visited@[a] && #[trigger] patch_step(base, a, b) implies visited@[b] by {
                lemma_step_back(base, a, b);
                if v0[a] {
                    assert(v0[b]);
                } else {
                    assert(comp@.contains(a as usize));
                    let t = choose|t: int| 0 <= t < comp@.len() && comp@[t] == a as usize;
                    assert(patch_step(base, comp@[t] as int, b));
                }
            }
            assert forall|j: int| #[trigger] reaches(base, seed as int, j) implies comp@.contains(j as usize) by {
                lemma_reaches_valid(base, seed as int, j);
                assert(visited@[seed as int]) by {
                    assert(comp@[0] == seed);
                }
                lemma_closed_reaches(base, visited@, seed as int, j);
                lemma_closed_excludes(base, v0, seed as int, j);
            }
        }
    }
    comp
}

/// The cells of a component, as a set.
fn comp_cells(comp: &Vec<usize>) -> (members: HashSet<usize>)
    ensures
        forall|j: usize| members@.contains(j) <==> comp@.contains(j),
{
    let mut members: HashSet<usize> = HashSet::new();
    let mut t: usize = 0;
    while t < comp.len()
        invariant
            t <= comp.len(),
            forall|j: usize| members@.contains(j) <==> exists|u: int| 0 <= u < t && comp@[u] == j,
        decreases comp.len() - t,
    {
        members.insert(comp[t]);
        proof {
            assert forall|j: usize| members@.contains(j) <==> exists|u: int| 0 <= u < t + 1 && comp@[u] == j by {
                if j == comp@[t as int] {
                    assert(comp@[t as int] == j);
                }
            }
        }
        t = t + 1;
    }
    members
}

/// A 4-neighbour of some cell of `comp`, outside it, satisfying `pred`.
pub open spec fn borders(cells: Seq<CellData>, comp: Seq<usize>, n: int) -> bool {
    exists|t: int, d: int|
        0 <= t < comp.len() && 0 <= d < 4 && #[trigger] step4(comp[t] as int, d) == n && n != -1 && !comp.contains(n as usize)
}

/// Most common blendable surface other than `own` bordering the component,
/// ties broken by slug order; `None` when there is none.
pub fn dominant_neighbor_surface(grid: &IslandGenGrid, comp: &Vec<usize>, own: SurfaceId) -> (r: Option<SurfaceId>)
    requires
        grid.wf(),
        comp@.len() < 1000,
        forall|t: int| 0 <= t < comp@.len() ==> valid_cell(#[trigger] comp@[t] as int),
    ensures
        r matches Some(s) ==> s != own && exists|n: int| borders(grid.cells@, comp@, n) && blendable(grid.cells@[n])
            && grid.cells@[n].surface == s,
        r is None ==> forall|n: int| borders(grid.cells@, comp@, n) && blendable(grid.cells@[n]) ==> grid.cells@[n].surface == own,
        r is None <==> interior_border(grid.cells@, comp@, own, 4 * comp@.len() as int).len() == 0,
        r matches Some(s) ==> wins_vote(interior_border(grid.cells@, comp@, own, 4 * comp@.len() as int), s),
{
    proof { lemma_tallies_empty(); }
    let members = comp_cells(comp);
    let mut counts: Vec<(SurfaceId, u32)> = Vec::new();
    let mut t: usize = 0;
    while t < comp.len()
        invariant
            t <= comp@.len(),
            grid.wf(),
            comp@.len() < 1000,
            forall|k: int| 0 <= k < comp@.len() ==> valid_cell(#[trigger] comp@[k] as int),
            forall|j: usize| members@.contains(j) <==> comp@.contains(j),
            counts@.len() <= 4 * t,
            forall|a: int| 0 <= a < counts@.len() ==> (#[trigger] counts@[a]).1 <= 4 * t,
            tallies(counts@, interior_border(grid.cells@, comp@, own, 4 * t)),
            forall|a: int| 0 <= a < counts@.len() ==> (#[trigger] counts@[a]).0 != own && exists|n: int| borders(grid.cells@, comp@, n)
                && blendable(grid.cells@[n]) && grid.cells@[n].surface == counts@[a].0,
            forall|k: int, d: int| 0 <= k < t && 0 <= d < 4 && #[trigger] step4(comp@[k] as int, d) != -1
                && !comp@.contains(step4(comp@[k] as int, d) as usize) && blendable(grid.cells@[step4(comp@[k] as int, d)])
                ==> grid.cells@[step4(comp@[k] as int, d)].surface == own || counts@.len() > 0,
        decreases comp@.len() - t,
    {
        let c = comp[t];
        let mut d: usize = 0;
        while d < 4
            invariant
                d <= 4,
                t < comp@.len(),
                c == comp@[t as int],
                grid.wf(),
                comp@.len() < 1000,
                forall|k: int| 0 <= k < comp@.len() ==> valid_cell(#[trigger] comp@[k] as int),
                forall|j: usize| members@.contains(j) <==> comp@.contains(j),
                counts@.len() <= 4 * t + d,
                forall|a: int| 0 <= a < counts@.len() ==> (#[trigger] counts@[a]).1 <= 4 * t + d,
                tallies(counts@, interior_border(grid.cells@, comp@, own, 4 * t + d)),
                forall|a: int| 0 <= a < counts@.len() ==> (#[trigger] counts@[a]).0 != own && exists|n: int| borders(grid.cells@, comp@, n)
                    && blendable(grid.cells@[n]) && grid.cells@[n].surface == counts@[a].0,
                forall|k: int, dd: int| (0 <= k < t && 0 <= dd < 4 || k == t && 0 <= dd < d) && #[trigger] step4(comp@[k] as int, dd) != -1
                    && !comp@.contains(step4(comp@[k] as int, dd) as usize) && blendable(grid.cells@[step4(comp@[k] as int, dd)])
                    ==> grid.cells@[step4(comp@[k] as int, dd)].surface == own || counts@.len() > 0,
            decreases 4 - d,
        {
            let ghost k = 4 * t + d;
            let ghost before_all = counts@;
            proof {
                assert(k / 4 == t as int && k % 4 == d as int);
                assert(slot_cell(comp@, k) == step4(comp@[t as int] as int, d as int));
            }
            if let Some(n) = neighbor4(c, d) {
                if !members.contains(&n) {
                    let cell = grid.cells[n];
                    if is_blendable_interior(&cell) && cell.surface != own {
                        let ghost before = counts@;
                        proof {
                            assert(borders(grid.cells@, comp@, n as int)) by {
                                assert(step4(comp@[t as int] as int, d as int) == n as int);
                            }
                            crate::island::patches::lemma_tally_index(before, cell.surface);
                        }
                        bump_count(&mut counts, cell.surface);
                        proof {
                            assert(interior_vote(grid.cells@, comp@, own, k));
                            lemma_tallies_bump(before, interior_border(grid.cells@, comp@, own, k), cell.surface, counts@);
                            let ti = crate::island::patches::tally_index(before, cell.surface);
                            assert forall|a: int| 0 <= a < counts@.len() implies (#[trigger] counts@[a]).0 != own && exists|m: int| borders(grid.cells@, comp@, m)
                                && blendable(grid.cells@[m]) && grid.cells@[m].surface == counts@[a].0 by {
                                if a < before.len() && a != ti {
                                    assert(counts@[a] == before[a]);
                                } else {
                                    assert(counts@[a].0 == cell.surface);
                                }
                            }
                        }
                    }
                }
            }
            proof {
                if counts@ == before_all {
                    assert(!interior_vote(grid.cells@, comp@, own, k));
                }
                assert(interior_border(grid.cells@, comp@, own, k + 1) == (if interior_vote(grid.cells@, comp@, own, k) {
                    interior_border(grid.cells@, comp@, own, k).push(grid.cells@[slot_cell(comp@, k)].surface)
                } else {
                    interior_border(grid.cells@, comp@, own, k)
                }));
            }
            d = d + 1;
        }
        t = t + 1;
    }
    let r = pick_max_surface(&counts);
    proof {
        if let Some(s) = r {
            let j = choose|j: int| 0 <= j < counts@.len() && counts@[j].0 == s && (forall|i: int| 0 <= i < counts@.len() ==> crate::island::patches::tally_le(#[trigger] counts@[i], counts@[j]))
                && (forall|i: int| j < i < counts@.len() ==> !crate::island::patches::tally_le(counts@[j], #[trigger] counts@[i]));
            assert(counts@[j].0 != own);
            lemma_tally_winner(counts@, interior_border(grid.cells@, comp@, own, 4 * comp@.len() as int), j);
        } else {
            lemma_tally_none(counts@, interior_border(grid.cells@, comp@, own, 4 * comp@.len() as int));
            assert forall|n: int| borders(grid.cells@, comp@, n) && blendable(grid.cells@[n]) implies grid.cells@[n].surface == own by {
                let (k, d) = choose|k: int, d: int| 0 <= k < comp@.len() && 0 <= d < 4 && #[trigger] step4(comp@[k] as int, d) == n && n != -1 && !comp@.contains(n as usize);
            }
        }
    }
    r
}

/// A land cell outside the blendable interior.
pub open spec fn plain_land(c: CellData) -> bool {
    c.role.land() && !blendable(c)
}

/// Some land cell outside the blendable interior with surface `s` borders
/// the component.
pub open spec fn land_witness(cells: Seq<CellData>, comp: Seq<usize>, s: SurfaceId) -> bool {
    exists|n: int| borders(cells, comp, n) && plain_land(cells[n]) && cells[n].surface == s
}

/// Most common land surface (not blendable) bordering the component, with
/// the role of the first such neighbour showing it; `None` when no such land
/// borders it.
pub fn dominant_neighbor_land(grid: &IslandGenGrid, comp: &Vec<usize>) -> (r: Option<(SurfaceId, TerrainRole)>)
    requires
        grid.wf(),
        comp@.len() < 1000,
        forall|t: int| 0 <= t < comp@.len() ==> valid_cell(#[trigger] comp@[t] as int),
    ensures
        r matches Some(p) ==> exists|n: int| borders(grid.cells@, comp@, n) && plain_land(grid.cells@[n])
            && grid.cells@[n].surface == p.0 && grid.cells@[n].role == p.1,
        r is None ==> forall|n: int| borders(grid.cells@, comp@, n) ==> !plain_land(grid.cells@[n]),
        r is None <==> land_border(grid.cells@, comp@, 4 * comp@.len() as int).len() == 0,
        r matches Some(p) ==> wins_vote(land_border(grid.cells@, comp@, 4 * comp@.len() as int), p.0)
            && first_land_role(grid.cells@, comp@, p.0, 4 * comp@.len() as int) == Some(p.1),
{
    proof { lemma_tallies_empty(); }
    let members = comp_cells(comp);
    let mut counts: Vec<(SurfaceId, u32)> = Vec::new();
    let mut t: usize = 0;
    while t < comp.len()
        invariant
            t <= comp@.len(),
            grid.wf(),
            comp@.len() < 1000,
            forall|k: int| 0 <= k < comp@.len() ==> valid_cell(#[trigger] comp@[k] as int),
            forall|j: usize| members@.contains(j) <==> comp@.contains(j),
            counts@.len() <= 4 * t,
            forall|a: int| 0 <= a < counts@.len() ==> (#[trigger] counts@[a]).1 <= 4 * t,
            tallies(counts@, land_border(grid.cells@, comp@, 4 * t)),
            forall|a: int| 0 <= a < counts@.len() ==> land_witness(grid.cells@, comp@, (#[trigger] counts@[a]).0),
            forall|k: int, d: int| 0 <= k < t && 0 <= d < 4 && #[trigger] step4(comp@[k] as int, d) != -1
                && !comp@.contains(step4(comp@[k] as int, d) as usize) && plain_land(grid.cells@[step4(comp@[k] as int, d)])
                ==> counts@.len() > 0,
        decreases comp@.len() - t,
    {
        let c = comp[t];
        let mut d: usize = 0;
        while d < 4
            invariant
                d <= 4,
                t < comp@.len(),
                c == comp@[t as int],
                grid.wf(),
                comp@.len() < 1000,
                forall|k: int| 0 <= k < comp@.len() ==> valid_cell(#[trigger] comp@[k] as int),
                forall|j: usize| members@.contains(j) <==> comp@.contains(j),
                counts@.len() <= 4 * t + d,
                forall|a: int| 0 <= a < counts@.len() ==> (#[trigger] counts@[a]).1 <= 4 * t + d,
                tallies(counts@, land_border(grid.cells@, comp@, 4 * t + d)),
                forall|a: int| 0 <= a < counts@.len() ==> land_witness(grid.cells@, comp@, (#[trigger] counts@[a]).0),
                forall|k: int, dd: int| (0 <= k < t && 0 <= dd < 4 || k == t && 0 <= dd < d) && #[trigger] step4(comp@[k] as int, dd) != -1
                    && !comp@.contains(step4(comp@[k] as int, dd) as usize) && plain_land(grid.cells@[step4(comp@[k] as int, dd)])
                    ==> counts@.len() > 0,
            decreases 4 - d,
        {
            let ghost k = 4 * t + d;
            let ghost before_all = counts@;
            proof {
                assert(k / 4 == t as int && k % 4 == d as int);
                assert(slot_cell(comp@, k) == step4(comp@[t as int] as int, d as int));
            }
            if let Some(n) = neighbor4(c, d) {
                if !members.contains(&n) {
                    let cell = grid.cells[n];
                    if cell.role.is_land() && !is_blendable_interior(&cell) {
                        let ghost before = counts@;
                        proof {
                            assert(borders(grid.cells@, comp@, n as int)) by {
                                assert(step4(comp@[t as int] as int, d as int) == n as int);
                            }
                            crate::island::patches::lemma_tally_index(before, cell.surface);
                        }
                        bump_count(&mut counts, cell.surface);
                        proof {
                            assert(land_vote(grid.cells@, comp@, k));
                            lemma_tallies_bump(before, land_border(grid.cells@, comp@, k), cell.surface, counts@);
                            let ti = crate::island::patches::tally_index(before, cell.surface);
                            assert forall|a: int| 0 <= a < counts@.len() implies land_witness(grid.cells@, comp@, (#[trigger] counts@[a]).0) by {
                                if a < before.len() && a != ti {
                                    assert(counts@[a] == before[a]);
                                } else {
                                    assert(counts@[a].0 == cell.surface);
                                    assert(borders(grid.cells@, comp@, n as int) && plain_land(grid.cells@[n as int]) && grid.cells@[n as int].surface == cell.surface);
                                }
                            }
                        }
                    }
                }
            }
            proof {
                if counts@ == before_all {
                    assert(!land_vote(grid.cells@, comp@, k));
                }
            }
            d = d + 1;
        }
        t = t + 1;
    }
    let surface = match pick_max_surface(&counts) {
        Some(s) => s,
        None => {
            proof {
                lemma_tally_none(counts@, land_border(grid.cells@, comp@, 4 * comp@.len() as int));
                assert forall|n: int| borders(grid.cells@, comp@, n) implies !plain_land(grid.cells@[n]) by {
                    let (k, d) = choose|k: int, d: int| 0 <= k < comp@.len() && 0 <= d < 4 && #[trigger] step4(comp@[k] as int, d) == n && n != -1 && !comp@.contains(n as usize);
                }
            }
            return None;
        },
    };
    proof {
        let j = choose|j: int| 0 <= j < counts@.len() && counts@[j].0 == surface && (forall|i: int| 0 <= i < counts@.len() ==> crate::island::patches::tally_le(#[trigger] counts@[i], counts@[j]))
            && (forall|i: int| j < i < counts@.len() ==> !crate::island::patches::tally_le(counts@[j], #[trigger] counts@[i]));
        assert(land_witness(grid.cells@, comp@, counts@[j].0));
        lemma_tally_winner(counts@, land_border(grid.cells@, comp@, 4 * comp@.len() as int), j);
    }
    let mut t: usize = 0;
    while t < comp.len()
        invariant
            t <= comp@.len(),
            grid.wf(),
            forall|k: int| 0 <= k < comp@.len() ==> valid_cell(#[trigger] comp@[k] as int),
            forall|j: usize| members@.contains(j) <==> comp@.contains(j),
            exists|n: int| borders(grid.cells@, comp@, n) && plain_land(grid.cells@[n]) && grid.cells@[n].surface == surface,
            wins_vote(land_border(grid.cells@, comp@, 4 * comp@.len() as int), surface),
            first_land_role(grid.cells@, comp@, surface, 4 * t) is None,
            forall|k: int, d: int| 0 <= k < t && 0 <= d < 4 && #[trigger] step4(comp@[k] as int, d) != -1
                && !comp@.contains(step4(comp@[k] as int, d) as usize) && plain_land(grid.cells@[step4(comp@[k] as int, d)])
                ==> grid.cells@[step4(comp@[k] as int, d)].surface != surface,
        decreases comp@.len() - t,
    {
        let c = comp[t];
        let mut d: usize = 0;
        while d < 4
            invariant
                d <= 4,
                t < comp@.len(),
                c == comp@[t as int],
                grid.wf(),
                forall|k: int| 0 <= k < comp@.len() ==> valid_cell(#[trigger] comp@[k] as int),
                forall|j: usize| members@.contains(j) <==> comp@.contains(j),
                exists|n: int| borders(grid.cells@, comp@, n) && plain_land(grid.cells@[n]) && grid.cells@[n].surface == surface,
                wins_vote(land_border(grid.cells@, comp@, 4 * comp@.len() as int), surface),
                first_land_role(grid.cells@, comp@, surface, 4 * t + d) is None,
                forall|k: int, dd: int| (0 <= k < t && 0 <= dd < 4 || k == t && 0 <= dd < d) && #[trigger] step4(comp@[k] as int, dd) != -1
                    && !comp@.contains(step4(comp@[k] as int, dd) as usize) && plain_land(grid.cells@[step4(comp@[k] as int, dd)])
                    ==> grid.cells@[step4(comp@[k] as int, dd)].surface != surface,
            decreases 4 - d,
        {
            let ghost k = 4 * t + d;
            proof {
                assert(k / 4 == t as int && k % 4 == d as int);
                assert(slot_cell(comp@, k) == step4(comp@[t as int] as int, d as int));
            }
            if let Some(n) = neighbor4(c, d) {
                if !members.contains(&n) {
                    let cell = grid.cells[n];
                    if cell.role.is_land() && !is_blendable_interior(&cell) && cell.surface == surface {
                        proof {
                            assert(borders(grid.cells@, comp@, n as int)) by {
                                assert(step4(comp@[t as int] as int, d as int) == n as int);
                            }
                            assert(land_vote(grid.cells@, comp@, k));
                            assert(first_land_role(grid.cells@, comp@, surface, k + 1) == Some(cell.role));
                            lemma_first_land_role_stable(grid.cells@, comp@, surface, k + 1, 4 * comp@.len() as int);
                        }
                        return Some((surface, cell.role));
                    }
                }
            }
            d = d + 1;
        }
        t = t + 1;
    }
    proof {
        let n = choose|n: int| borders(grid.cells@, comp@, n) && plain_land(grid.cells@[n]) && grid.cells@[n].surface == surface;
        let (k, d) = choose|k: int, d: int| 0 <= k < comp@.len() && 0 <= d < 4 && #[trigger] step4(comp@[k] as int, d) == n && n != -1 && !comp@.contains(n as usize);
    }
    None
}

/// Cell `c` after the small-patch merge may differ from `o` only in surface,
/// patch id and role, and only when `o` was interior land; a changed cell has
/// left its patch (patch id 0), and a changed role is land that no longer
/// blends.
pub open spec fn merge_step_ok(o: CellData, c: CellData) -> bool {
    if !blendable(o) {
        c == o
    } else {
        &&& (c == o || c.patch_id == 0)
        &&& c.biome == o.biome
        &&& c.biome_seam == o.biome_seam
        &&& c.role_locked == o.role_locked
        &&& c.dist_to_water == o.dist_to_water
        &&& c.transition == o.transition
        &&& (c.role == o.role || (c.role.land() && !blendable(c)))
    }
}

/// `merge_step_ok` holds cell by cell.
pub open spec fn merge_ok(old_cells: Seq<CellData>, cells: Seq<CellData>) -> bool {
    &&& old_cells.len() == cells.len()
    &&& forall|i: int| 0 <= i < cells.len() ==> merge_step_ok(#[trigger] old_cells[i], cells[i])
}

proof fn lemma_merge_ok_trans(a: Seq<CellData>, b: Seq<CellData>, c: Seq<CellData>)
    requires
        merge_ok(a, b),
        merge_ok(b, c),
    ensures
        merge_ok(a, c),
{
    assert forall|i: int| 0 <= i < c.len() implies merge_step_ok(#[trigger] a[i], c[i]) by {
        assert(merge_step_ok(a[i], b[i]));
        assert(merge_step_ok(b[i], c[i]));
    }
}

/// `n` borders the patch of `s`: a 4-neighbour of one of its cells, outside it.
pub open spec fn borders_patch(cells: Seq<CellData>, s: int, n: int) -> bool {
    exists|a: int, d: int|
        reaches(cells, s, a) && 0 <= d < 4 && #[trigger] step4(a, d) == n && n != -1 && !reaches(cells, s, n)
}

/// The patch of `s` needs no merge: it has at least `MIN_PATCH` cells, or
/// only water borders it.
pub open spec fn patch_settled(cells: Seq<CellData>, s: int) -> bool {
    component_size(cells, s) >= MIN_PATCH || forall|n: int| #[trigger] borders_patch(cells, s, n) ==> !cells[n].role.land()
}

/// Every interior patch of the grid needs no merge.
pub open spec fn merge_settled(cells: Seq<CellData>) -> bool {
    forall|i: int| valid_cell(i) && blendable(cells[i]) ==> #[trigger] patch_settled(cells, i)
}

/// A cell of a patch of one surface has that surface.
proof fn lemma_reaches_surface(cells: Seq<CellData>, s: int, t: int)
    requires
        reaches(cells, s, t),
    ensures
        cells[t].surface == cells[s].surface,
{
    let p = choose|p: Seq<int>| #[trigger] is_patch_path(cells, p) && p[0] == s && p.last() == t;
    lemma_path_surface(cells, p, p.len() - 1);
}

proof fn lemma_path_surface(cells: Seq<CellData>, p: Seq<int>, k: int)
    requires
        is_patch_path(cells, p),
        0 <= k < p.len(),
    ensures
        cells[p[k]].surface == cells[p[0]].surface,
    decreases k,
{
    if k > 0 {
        lemma_path_surface(cells, p, k - 1);
        assert(patch_step(cells, p[k - 1], p[k]));
    }
}

/// A settled patch is settled seen from any of its cells.
proof fn lemma_settled_shared(cells: Seq<CellData>, s: int, j: int)
    requires
        reaches(cells, s, j),
        patch_settled(cells, s),
    ensures
        patch_settled(cells, j),
{
    lemma_component_same(cells, s, j);
    lemma_reaches_sym(cells, s, j);
    if component_size(cells, s) < MIN_PATCH {
        assert forall|n: int| #[trigger] borders_patch(cells, j, n) implies !cells[n].role.land() by {
            let (a, d) = choose|a: int, d: int|
                reaches(cells, j, a) && 0 <= d < 4 && #[trigger] step4(a, d) == n && n != -1 && !reaches(cells, j, n);
            lemma_reaches_trans(cells, s, j, a);
            if reaches(cells, s, n) {
                lemma_reaches_trans(cells, j, s, n);
            }
            assert(borders_patch(cells, s, n));
        }
    }
}

/// A small patch, listed whole in `comp`, whose border shows no interior of
/// another surface and no other land, is bordered only by water.
proof fn lemma_small_patch_settled(cells: Seq<CellData>, comp: Seq<usize>, s: int)
    requires
        valid_cell(s),
        blendable(cells[s]),
        forall|t: int| 0 <= t < comp.len() ==> #[trigger] reaches(cells, s, comp[t] as int),
        forall|j: int| #[trigger] reaches(cells, s, j) ==> comp.contains(j as usize),
        forall|n: int| borders(cells, comp, n) && blendable(cells[n]) ==> cells[n].surface == cells[s].surface,
        forall|n: int| borders(cells, comp, n) ==> !plain_land(cells[n]),
    ensures
        patch_settled(cells, s),
{
    assert forall|n: int| #[trigger] borders_patch(cells, s, n) implies !cells[n].role.land() by {
        let (a, d) = choose|a: int, d: int|
            reaches(cells, s, a) && 0 <= d < 4 && #[trigger] step4(a, d) == n && n != -1 && !reaches(cells, s, n);
        lemma_reaches_valid(cells, s, a);
        lemma_step4(a, d);
        assert(comp.contains(a as usize));
        let t = choose|t: int| 0 <= t < comp.len() && comp[t] == a as usize;
        if comp.contains(n as usize) {
            let u = choose|u: int| 0 <= u < comp.len() && comp[u] == n as usize;
            assert(reaches(cells, s, comp[u] as int));
        }
        assert(step4(comp[t] as int, d) == n);
        assert(borders(cells, comp, n));
        if blendable(cells[n]) {
            lemma_reaches_surface(cells, s, a);
            assert(patch_step(cells, a, n));
            lemma_reaches_step(cells, s, a, n);
        }
    }
}

/// The surface that wins the vote `s`: most votes, ties to the greater slug.
pub open spec fn vote_winner(s: Seq<SurfaceId>) -> SurfaceId {
    choose|x: SurfaceId| wins_vote(s, x)
}

/// A vote has one winner.
proof fn lemma_winner_unique(s: Seq<SurfaceId>, x: SurfaceId)
    requires
        wins_vote(s, x),
    ensures
        vote_winner(s) == x,
{
    let y = vote_winner(s);
    assert(wins_vote(s, y));
    lemma_slug_rank_injective(x);
    lemma_slug_rank_injective(y);
}

/// `cells` with every cell of `comp` given surface `repl`, patch id 0 and,
/// when `role` is given, that role.
pub open spec fn merged_cells(cells: Seq<CellData>, comp: Seq<usize>, repl: SurfaceId, role: Option<TerrainRole>) -> Seq<CellData> {
    Seq::new(
        cells.len(),
        |j: int|
            if comp.contains(j as usize) {
                match role {
                    Some(r) => CellData { surface: repl, role: r, patch_id: 0, ..cells[j] },
                    None => CellData { surface: repl, patch_id: 0, ..cells[j] },
                }
            } else {
                cells[j]
            },
    )
}

/// The merge of patch `comp` (of surface `own`, in search order): a patch of
/// fewer than `MIN_PATCH` cells takes the winning surface among the interior
/// cells of other surfaces around it; with none, the winning surface among
/// the other land around it, with the role of the first such neighbour
/// showing it; with neither, or at full size, nothing happens.
pub open spec fn merge_component(cells: Seq<CellData>, comp: Seq<usize>, own: SurfaceId) -> Option<Seq<CellData>> {
    let slots = 4 * comp.len() as int;
    if comp.len() >= MIN_PATCH {
        None
    } else if interior_border(cells, comp, own, slots).len() > 0 {
        Some(merged_cells(cells, comp, vote_winner(interior_border(cells, comp, own, slots)), None))
    } else if land_border(cells, comp, slots).len() > 0 {
        let s = vote_winner(land_border(cells, comp, slots));
        Some(merged_cells(cells, comp, s, first_land_role(cells, comp, s, slots)))
    } else {
        None
    }
}

/// The merge pass from cell `i` on, with marks `v`: unmarked non-interior
/// cells are marked; an unmarked interior cell has its patch searched and
/// merged; the flag records whether anything merged.
pub open spec fn pass_scan(cells: Seq<CellData>, v: Seq<bool>, i: int, changed: bool) -> (Seq<CellData>, bool)
    decreases 97344 - i,
{
    if i < 0 || i >= 97344 {
        (cells, changed)
    } else if v[i] {
        pass_scan(cells, v, i + 1, changed)
    } else if !blendable(cells[i]) {
        pass_scan(cells, v.update(i, true), i + 1, changed)
    } else {
        let e = spec_explore(cells, v, i);
        match merge_component(cells, e.1, cells[i].surface) {
            Some(merged) => pass_scan(merged, e.0, i + 1, true),
            None => pass_scan(cells, e.0, i + 1, changed),
        }
    }
}

/// One merge pass over the whole grid in row-major order: the grid after it,
/// and whether any patch merged.
pub open spec fn spec_merge_pass(cells: Seq<CellData>) -> (Seq<CellData>, bool) {
    pass_scan(cells, Seq::new(97344, |j: int| false), 0, false)
}

/// Up to `n` merge passes, stopping after the first that merges nothing.
pub open spec fn merge_rounds(cells: Seq<CellData>, n: nat) -> Seq<CellData>
    decreases n,
{
    if n == 0 {
        cells
    } else {
        let p = spec_merge_pass(cells);
        if p.1 { merge_rounds(p.0, (n - 1) as nat) } else { p.0 }
    }
}

/// Cells listed whole in `comp` see their border as a border of the patch.
proof fn lemma_borders_patch_of(cells: Seq<CellData>, comp: Seq<usize>, s: int, n: int)
    requires
        forall|t: int| 0 <= t < comp.len() ==> #[trigger] reaches(cells, s, comp[t] as int),
        forall|j: int| #[trigger] reaches(cells, s, j) ==> comp.contains(j as usize),
        borders(cells, comp, n),
    ensures
        borders_patch(cells, s, n),
{
    let (t, d) = choose|t: int, d: int|
        0 <= t < comp.len() && 0 <= d < 4 && #[trigger] step4(comp[t] as int, d) == n && n != -1 && !comp.contains(n as usize);
    assert(reaches(cells, s, comp[t] as int));
    if reaches(cells, s, n) {
        assert(comp.contains(n as usize));
    }
}

/// On a settled grid, a small patch listed whole has neither interior of
/// another surface nor other land on its border.
proof fn lemma_settled_border(cells: Seq<CellData>, comp: Seq<usize>, s: int)
    requires
        merge_settled(cells),
        valid_cell(s),
        blendable(cells[s]),
        comp.len() < MIN_PATCH,
        comp.len() == component_size(cells, s),
        forall|t: int| 0 <= t < comp.len() ==> #[trigger] reaches(cells, s, comp[t] as int),
        forall|j: int| #[trigger] reaches(cells, s, j) ==> comp.contains(j as usize),
    ensures
        forall|n: int| #[trigger] borders(cells, comp, n) ==> !blendable(cells[n]) && !plain_land(cells[n]),
{
    assert(patch_settled(cells, s));
    assert forall|n: int| #[trigger] borders(cells, comp, n) implies !blendable(cells[n]) && !plain_land(cells[n]) by {
        lemma_borders_patch_of(cells, comp, s, n);
    }
}

/// Merging a whole patch of `cp`, still as it was, keeps each patch step of
/// `cp` treated alike.
proof fn lemma_merge_uniform(cp: Seq<CellData>, cb: Seq<CellData>, comp: Seq<usize>, s: int, repl: SurfaceId, role: Option<TerrainRole>)
    requires
        cb.len() == 97344,
        steps_uniform(cp, cb),
        forall|t: int| 0 <= t < comp.len() ==> #[trigger] reaches(cp, s, comp[t] as int) && blendable(cb[comp[t] as int]),
        forall|j: int| #[trigger] reaches(cp, s, j) ==> comp.contains(j as usize),
    ensures
        steps_uniform(cp, merged_cells(cb, comp, repl, role)),
{
    let g = merged_cells(cb, comp, repl, role);
    assert forall|a: int, b: int| #[trigger] patch_step(cp, a, b) implies g[a].surface == g[b].surface && blendable(g[a]) == blendable(g[b]) by {
        lemma_step_back(cp, a, b);
        if comp.contains(a as usize) {
            let t = choose|t: int| 0 <= t < comp.len() && comp[t] == a as usize;
            assert(reaches(cp, s, comp[t] as int));
            lemma_reaches_step(cp, s, a, b);
            assert(comp.contains(b as usize));
            let u = choose|u: int| 0 <= u < comp.len() && comp[u] == b as usize;
            assert(reaches(cp, s, comp[u] as int));
        } else if comp.contains(b as usize) {
            let u = choose|u: int| 0 <= u < comp.len() && comp[u] == b as usize;
            assert(reaches(cp, s, comp[u] as int));
            lemma_reaches_step(cp, s, b, a);
            assert(comp.contains(a as usize));
        }
    }
}

/// Giving a whole patch of `cp` the surface of an interior cell on its
/// border links that cell to it: the grid merges patches of `cp`.
proof fn lemma_merge_links(cp: Seq<CellData>, cb: Seq<CellData>, comp: Seq<usize>, s: int, repl: SurfaceId)
    requires
        cb.len() == 97344,
        forall|t: int| 0 <= t < comp.len() ==> #[trigger] reaches(cp, s, comp[t] as int) && valid_cell(comp[t] as int)
            && blendable(cb[comp[t] as int]),
        forall|j: int| #[trigger] reaches(cp, s, j) ==> comp.contains(j as usize),
        exists|n: int| borders(cb, comp, n) && blendable(cb[n]) && cb[n].surface == repl,
    ensures
        merges_patches(cp, merged_cells(cb, comp, repl, None)),
{
    let g = merged_cells(cb, comp, repl, None);
    let n = choose|n: int| borders(cb, comp, n) && blendable(cb[n]) && cb[n].surface == repl;
    let (t, d) = choose|t: int, d: int|
        0 <= t < comp.len() && 0 <= d < 4 && #[trigger] step4(comp[t] as int, d) == n && n != -1 && !comp.contains(n as usize);
    let c = comp[t] as int;
    assert(reaches(cp, s, c));
    lemma_step4(c, d);
    assert(comp.contains(c as usize));
    assert(adjacent(c, n)) by {
        if d == 0 {} else if d == 1 {} else if d == 2 {} else {}
    }
    assert(patch_step(g, c, n));
    if reaches(cp, c, n) {
        lemma_reaches_trans(cp, s, c, n);
    }
}

/// In-prefix test for the write loops: `j` is one of the first `t` cells of `comp`.
pub open spec fn in_prefix(comp: Seq<usize>, t: int, j: int) -> bool {
    exists|u: int| 0 <= u < t && comp[u] == j as usize
}

/// One merge pass: every small patch, met in row-major order, is merged into
/// its dominant neighbouring interior surface, or else into the surrounding
/// land. Returns whether it changed anything; when it did not, every patch
/// was settled, and when it did, the grid has fewer patches: each patch met
/// is merged whole, so a merge either takes a patch out of the interior or
/// joins it to a neighbouring one.
#[verifier::rlimit(100)]
fn merge_pass(grid: &mut IslandGenGrid) -> (changed: bool)
    requires
        old(grid).wf(),
    ensures
        final(grid).wf(),
        final(grid).recipe == old(grid).recipe,
        final(grid).interior_holes_filled == old(grid).interior_holes_filled,
        merge_ok(old(grid).cells@, final(grid).cells@),
        changed ==> final(grid).cells@ != old(grid).cells@,
        !changed ==> final(grid).cells@ == old(grid).cells@ && merge_settled(old(grid).cells@),
        (final(grid).cells@, changed) == spec_merge_pass(old(grid).cells@),
        merge_settled(old(grid).cells@) ==> !changed,
        changed ==> patch_count(final(grid).cells@) < patch_count(old(grid).cells@),
{
    let ghost cp = grid.cells@;
    assert(merge_ok(cp, cp));
    let mut changed = false;
    let ghost mut w: int = 0;
    let mut visited = all_unvisited();
    assert(closed(cp, visited@));
    assert(visited@ =~= Seq::new(97344, |j: int| false));
    let mut i: usize = 0;
    while i < CELL_COUNT
        invariant
            i <= CELL_COUNT,
            grid.wf(),
            cp == old(grid).cells@,
            cp.len() == 97344,
            visited@.len() == 97344,
            grid.recipe == old(grid).recipe,
            grid.interior_holes_filled == old(grid).interior_holes_filled,
            merge_ok(cp, grid.cells@),
            forall|j: int| 0 <= j < i ==> #[trigger] visited@[j],
            forall|j: int| valid_cell(j) && !visited@[j] ==> #[trigger] grid.cells@[j] == cp[j],
            changed ==> valid_cell(w) && visited@[w] && grid.cells@[w] != cp[w],
            !changed ==> grid.cells@ == cp,
            closed(cp, visited@),
            steps_uniform(cp, grid.cells@),
            changed ==> merges_patches(cp, grid.cells@),
            !changed ==> forall|j: int| valid_cell(j) && #[trigger] visited@[j] && blendable(cp[j]) ==> patch_settled(cp, j),
            pass_scan(grid.cells@, visited@, i as int, changed) == spec_merge_pass(cp),
            merge_settled(cp) ==> !changed,
        decreases CELL_COUNT - i,
    {
        if !visited[i] {
            if !is_blendable_interior(&grid.cells[i]) {
                let ghost vb = visited@;
                visited.set(i, true);
                proof {
                    assert forall|a: int, b: int| valid_cell(a) && visited@[a] && #[trigger] patch_step(cp, a, b) implies visited@[b] by {
                        if a != i as int {
                            assert(vb[a]);
                        }
                    }
                }
            } else {
                let surface = grid.cells[i].surface;
                let ghost vb = visited@;
                let ghost cb = grid.cells@;
                let ghost ch0 = changed;
                let comp = explore_component(&grid.cells, &mut visited, i, Ghost(cp));
                let ghost merged: Option<Seq<CellData>> = None;
                proof {
                    if !changed {
                        assert forall|j: int| #[trigger] reaches(cp, i as int, j) implies comp@.contains(j as usize) by {}
                        lemma_comp_size(cp, comp@, i as int);
                        if merge_settled(cp) && comp@.len() < MIN_PATCH {
                            lemma_settled_border(cp, comp@, i as int);
                        }
                    }
                }
                if comp.len() < MIN_PATCH as usize {
                    match dominant_neighbor_surface(grid, &comp, surface) {
                        Some(repl) => {
                            let mut t: usize = 0;
                            while t < comp.len()
                                invariant
                                    t <= comp@.len(),
                                    grid.wf(),
                                    cb.len() == 97344,
                                    forall|u: int| 0 <= u < comp@.len() ==> valid_cell(#[trigger] comp@[u] as int)
                                        && blendable(cb[comp@[u] as int]),
                                    grid.recipe == old(grid).recipe,
                                    grid.interior_holes_filled == old(grid).interior_holes_filled,
                                    merge_ok(cb, grid.cells@),
                                    forall|j: int| valid_cell(j) && !comp@.contains(j as usize) ==> #[trigger] grid.cells@[j] == cb[j],
                                    forall|u: int| 0 <= u < t ==> #[trigger] grid.cells@[comp@[u] as int].surface == repl,
                                    comp@.no_duplicates(),
                                    grid.cells@.len() == 97344,
                                    forall|j: int| 0 <= j < 97344 ==> #[trigger] grid.cells@[j] == (if in_prefix(comp@, t as int, j) {
                                        CellData { surface: repl, patch_id: 0, ..cb[j] }
                                    } else {
                                        cb[j]
                                    }),
                                decreases comp@.len() - t,
                            {
                                let ci = comp[t];
                                let c = grid.cells[ci];
                                let ghost gb = grid.cells@;
                                proof {
                                    if in_prefix(comp@, t as int, ci as int) {
                                        let u = choose|u: int| 0 <= u < t && comp@[u] == ci;
                                        assert(comp@[u] == comp@[t as int]);
                                    }
                                }
                                grid.cells.set(ci, CellData { surface: repl, patch_id: 0, ..c });
                                proof {
                                    assert forall|j: int| 0 <= j < 97344 implies #[trigger] grid.cells@[j] == (if in_prefix(comp@, t + 1, j) {
                                        CellData { surface: repl, patch_id: 0, ..cb[j] }
                                    } else {
                                        cb[j]
                                    }) by {
                                        if j == ci as int {
                                            assert(comp@[t as int] == ci);
                                        } else {
                                            assert(gb[j] == grid.cells@[j]);
                                            if in_prefix(comp@, t + 1, j) {
                                                let u = choose|u: int| 0 <= u < t + 1 && comp@[u] == j as usize;
                                                assert(u < t);
                                            }
                                        }
                                    }
                                    assert forall|u: int| 0 <= u < grid.cells@.len() implies merge_step_ok(#[trigger] cb[u], grid.cells@[u]) by {
                                        assert(merge_step_ok(cb[u], gb[u]));
                                    }
                                    assert forall|j: int| valid_cell(j) && !comp@.contains(j as usize) implies #[trigger] grid.cells@[j] == cb[j] by {
                                        assert(comp@[t as int] == ci);
                                        if j == ci as int {
                                            assert(comp@.contains(j as usize));
                                        }
                                    }
                                }
                                t = t + 1;
                            }
                            proof {
                                assert(grid.cells@[comp@[0] as int].surface == repl);
                                w = i as int;
                                assert forall|j: int| 0 <= j < 97344 implies (in_prefix(comp@, comp@.len() as int, j) <==> comp@.contains(j as usize)) by {
                                    if comp@.contains(j as usize) {
                                        let u = choose|u: int| 0 <= u < comp@.len() && comp@[u] == j as usize;
                                        assert(in_prefix(comp@, comp@.len() as int, j));
                                    }
                                }
                                assert(grid.cells@ =~= merged_cells(cb, comp@, repl, None));
                                lemma_winner_unique(interior_border(cb, comp@, surface, 4 * comp@.len() as int), repl);
                                lemma_merge_uniform(cp, cb, comp@, i as int, repl, None);
                                lemma_merge_links(cp, cb, comp@, i as int, repl);
                                merged = Some(merged_cells(cb, comp@, repl, None));
                            }
                            changed = true;
                        },
                        None => {
                            if let Some((repl, role)) = dominant_neighbor_land(grid, &comp) {
                                proof {
                                    let n = choose|n: int| borders(grid.cells@, comp@, n) && plain_land(grid.cells@[n])
                                        && grid.cells@[n].surface == repl && grid.cells@[n].role == role;
                                }
                                let mut t: usize = 0;
                                while t < comp.len()
                                    invariant
                                        t <= comp@.len(),
                                        grid.wf(),
                                        cb.len() == 97344,
                                        role.land() && !(role == TerrainRole::Interior || role == TerrainRole::BiomeSeam),
                                        forall|u: int| 0 <= u < comp@.len() ==> valid_cell(#[trigger] comp@[u] as int)
                                            && blendable(cb[comp@[u] as int]),
                                        grid.recipe == old(grid).recipe,
                                        grid.interior_holes_filled == old(grid).interior_holes_filled,
                                        merge_ok(cb, grid.cells@),
                                        forall|j: int| valid_cell(j) && !comp@.contains(j as usize) ==> #[trigger] grid.cells@[j] == cb[j],
                                        forall|u: int| 0 <= u < t ==> #[trigger] grid.cells@[comp@[u] as int].role == role,
                                        comp@.no_duplicates(),
                                        grid.cells@.len() == 97344,
                                        forall|j: int| 0 <= j < 97344 ==> #[trigger] grid.cells@[j] == (if in_prefix(comp@, t as int, j) {
                                            CellData { surface: repl, role, patch_id: 0, ..cb[j] }
                                        } else {
                                            cb[j]
                                        }),
                                    decreases comp@.len() - t,
                                {
                                    let ci = comp[t];
                                    let c = grid.cells[ci];
                                    let ghost gb = grid.cells@;
                                    proof {
                                        if in_prefix(comp@, t as int, ci as int) {
                                            let u = choose|u: int| 0 <= u < t && comp@[u] == ci;
                                            assert(comp@[u] == comp@[t as int]);
                                        }
                                    }
                                    grid.cells.set(ci, CellData { surface: repl, role, patch_id: 0, ..c });
                                    proof {
                                        assert forall|j: int| 0 <= j < 97344 implies #[trigger] grid.cells@[j] == (if in_prefix(comp@, t + 1, j) {
                                            CellData { surface: repl, role, patch_id: 0, ..cb[j] }
                                        } else {
                                            cb[j]
                                        }) by {
                                            if j == ci as int {
                                                assert(comp@[t as int] == ci);
                                            } else {
                                                assert(gb[j] == grid.cells@[j]);
                                                if in_prefix(comp@, t + 1, j) {
                                                    let u = choose|u: int| 0 <= u < t + 1 && comp@[u] == j as usize;
                                                    assert(u < t);
                                                }
                                            }
                                        }
                                        assert forall|u: int| 0 <= u < grid.cells@.len() implies merge_step_ok(#[trigger] cb[u], grid.cells@[u]) by {
                                            assert(merge_step_ok(cb[u], gb[u]));
                                        }
                                        assert forall|j: int| valid_cell(j) && !comp@.contains(j as usize) implies #[trigger] grid.cells@[j] == cb[j] by {
                                            assert(comp@[t as int] == ci);
                                            if j == ci as int {
                                                assert(comp@.contains(j as usize));
                                            }
                                        }
                                    }
                                    t = t + 1;
                                }
                                proof {
                                    assert(grid.cells@[comp@[0] as int].role == role);
                                    w = i as int;
                                    assert forall|j: int| 0 <= j < 97344 implies (in_prefix(comp@, comp@.len() as int, j) <==> comp@.contains(j as usize)) by {
                                        if comp@.contains(j as usize) {
                                            let u = choose|u: int| 0 <= u < comp@.len() && comp@[u] == j as usize;
                                            assert(in_prefix(comp@, comp@.len() as int, j));
                                        }
                                    }
                                    assert(grid.cells@ =~= merged_cells(cb, comp@, repl, Some(role)));
                                    lemma_winner_unique(land_border(cb, comp@, 4 * comp@.len() as int), repl);
                                    lemma_merge_uniform(cp, cb, comp@, i as int, repl, Some(role));
                                    assert(valid_cell(i as int) && blendable(cp[i as int]) && !blendable(grid.cells@[i as int]));
                                    merged = Some(merged_cells(cb, comp@, repl, Some(role)));
                                }
                                changed = true;
                            } else {
                                proof {
                                    if !changed {
                                        lemma_small_patch_settled(cp, comp@, i as int);
                                    }
                                }
                            }
                        },
                    }
                    proof { lemma_merge_ok_trans(cp, cb, grid.cells@); }
                }
                proof {
                    assert(merge_component(cb, comp@, surface) == merged);
                    match merged {
                        Some(m) => {
                            assert(grid.cells@ == m);
                            assert(changed);
                        },
                        None => {
                            assert(grid.cells@ == cb);
                            assert(changed == ch0);
                        },
                    }
                    assert(pass_scan(cb, vb, i as int, ch0) == pass_scan(grid.cells@, visited@, i + 1, changed));
                    assert forall|j: int| valid_cell(j) && !visited@[j] implies #[trigger] grid.cells@[j] == cp[j] by {
                        if comp@.contains(j as usize) {
                            let u = choose|u: int| 0 <= u < comp@.len() && comp@[u] == j as usize;
                            assert(visited@[comp@[u] as int]);
                        }
                        assert(!vb[j]);
                    }
                    if changed {
                        if comp@.contains(w as usize) {
                            let u = choose|u: int| 0 <= u < comp@.len() && comp@[u] == w as usize;
                            assert(!vb[comp@[u] as int]);
                        }
                    }
                    if !changed {
                        assert forall|j: int| valid_cell(j) && #[trigger] visited@[j] && blendable(cp[j]) implies patch_settled(cp, j) by {
                            if !vb[j] {
                                assert(comp@.contains(j as usize));
                                let u = choose|u: int| 0 <= u < comp@.len() && comp@[u] == j as usize;
                                assert(reaches(cp, i as int, comp@[u] as int));
                                lemma_settled_shared(cp, i as int, j);
                            }
                        }
                    }
                }
            }
        }
        i = i + 1;
    }
    proof {
        if !changed {
            assert forall|j: int| valid_cell(j) && blendable(cp[j]) implies #[trigger] patch_settled(cp, j) by {
                assert(visited@[j]);
            }
        } else {
            assert forall|j: int| valid_cell(j) && #[trigger] blendable(grid.cells@[j]) implies blendable(cp[j]) by {
                assert(merge_step_ok(cp[j], grid.cells@[j]));
            }
            lemma_patch_count_drops(cp, grid.cells@);
        }
    }
    changed
}

/// Merge connected same-surface interior components smaller than
/// `MIN_PATCH`, pass after pass until a pass merges nothing: each pass walks
/// the patches in row-major order, giving a small patch the winning
/// neighbouring interior surface, or, with no interior neighbour, the winning
/// neighbouring land surface and the role of the first neighbour showing it.
/// Every pass that changes the grid lowers its number of patches, so the
/// passes stop, within `merge_rounds` of one more pass than the grid has
/// cells. Only interior land changes, and the result is settled: every patch
/// under `MIN_PATCH` is bordered only by water. A settled grid is left as it
/// is, so the result is a stable fixpoint.
pub fn enforce_min_patch_size(grid: &mut IslandGenGrid)
    requires
        old(grid).wf(),
    ensures
        final(grid).wf(),
        final(grid).recipe == old(grid).recipe,
        final(grid).interior_holes_filled == old(grid).interior_holes_filled,
        merge_ok(old(grid).cells@, final(grid).cells@),
        merge_settled(final(grid).cells@),
        final(grid).cells@ == merge_rounds(old(grid).cells@, 97345),
        merge_settled(old(grid).cells@) ==> final(grid).cells@ == old(grid).cells@,
{
    let ghost c0 = grid.cells@;
    assert(merge_ok(c0, c0));
    let ghost mut passes: nat = 0;
    proof {
        lemma_patch_roots_finite(c0);
    }
    loop
        invariant
            grid.wf(),
            c0 == old(grid).cells@,
            grid.recipe == old(grid).recipe,
            grid.interior_holes_filled == old(grid).interior_holes_filled,
            merge_ok(c0, grid.cells@),
            passes + patch_count(grid.cells@) <= patch_count(c0),
            patch_count(c0) <= 97344,
            merge_rounds(grid.cells@, (97345 - passes) as nat) == merge_rounds(c0, 97345),
            merge_settled(c0) ==> grid.cells@ == c0,
        ensures
            grid.wf(),
            grid.recipe == old(grid).recipe,
            grid.interior_holes_filled == old(grid).interior_holes_filled,
            merge_ok(c0, grid.cells@),
            merge_settled(grid.cells@),
            grid.cells@ == merge_rounds(c0, 97345),
            merge_settled(c0) ==> grid.cells@ == c0,
        decreases patch_count(grid.cells@),
    {
        let ghost before = grid.cells@;
        let changed = merge_pass(grid);
        proof {
            lemma_merge_ok_trans(c0, before, grid.cells@);
            assert(merge_rounds(before, (97345 - passes) as nat) == (if changed {
                merge_rounds(grid.cells@, (97345 - passes - 1) as nat)
            } else {
                grid.cells@
            }));
        }
        if !changed {
            break;
        }
        proof {
            passes = passes + 1;
        }
    }
}

fn all_unvisited() -> (v: Vec<bool>)
    ensures
        v@.len() == 97344,
        forall|j: int| 0 <= j < 97344 ==> !v@[j],
        count_false(v@) == 97344,
{
    let mut v: Vec<bool> = Vec::new();
    let mut k: usize = 0;
    while k < CELL_COUNT
        invariant
            k <= CELL_COUNT,
            v@.len() == k,
            forall|j: int| 0 <= j < k ==> !v@[j],
            count_false(v@) == k,
        decreases CELL_COUNT - k,
    {
        let ghost before = v@;
        v.push(false);
        assert(v@.drop_last() =~= before);
        k = k + 1;
    }
    v
}

/// Per-cell size of its equal-surface interior component (4-neighbour): 0
/// for cells that are not interior land, the size of their patch for those
/// that are.
pub fn cell_component_sizes(grid: &IslandGenGrid) -> (out: Vec<u32>)
    requires
        grid.wf(),
    ensures
        out@.len() == 97344,
        forall|i: int| valid_cell(i) ==> #[trigger] out@[i] == (if blendable(grid.cells@[i]) {
            component_size(grid.cells@, i) as u32
        } else {
            0u32
        }),
        forall|i: int| valid_cell(i) ==> (#[trigger] out@[i] == 0 <==> !blendable(grid.cells@[i])),
{
    let ghost cs = grid.cells@;
    let mut out: Vec<u32> = Vec::new();
    let mut k: usize = 0;
    while k < CELL_COUNT
        invariant
            k <= CELL_COUNT,
            out@.len() == k,
            forall|j: int| 0 <= j < k ==> out@[j] == 0,
        decreases CELL_COUNT - k,
    {
        out.push(0);
        k = k + 1;
    }
    let mut visited = all_unvisited();
    let mut i: usize = 0;
    while i < CELL_COUNT
        invariant
            i <= CELL_COUNT,
            grid.wf(),
            grid.cells@ == cs,
            out@.len() == 97344,
            visited@.len() == 97344,
            closed(cs, visited@),
            forall|j: int| 0 <= j < i ==> #[trigger] visited@[j],
            forall|j: int| valid_cell(j) && !blendable(cs[j]) ==> #[trigger] out@[j] == 0,
            forall|j: int| valid_cell(j) && #[trigger] visited@[j] && blendable(cs[j]) ==> out@[j] == component_size(cs, j) as u32
                && component_size(cs, j) >= 1 && component_size(cs, j) <= 97344,
            forall|j: int| valid_cell(j) && !visited@[j] ==> #[trigger] out@[j] == 0,
        decreases CELL_COUNT - i,
    {
        if !visited[i] {
            if !is_blendable_interior(&grid.cells[i]) {
                let ghost vb = visited@;
                visited.set(i, true);
                proof {
                    assert forall|a: int, b: int| valid_cell(a) && visited@[a] && #[trigger] patch_step(cs, a, b) implies visited@[b] by {
                        if a != i as int {
                            assert(vb[a]);
                        }
                    }
                }
            } else {
                let ghost vb = visited@;
                let comp = explore_component(&grid.cells, &mut visited, i, Ghost(grid.cells@));
                proof {
                    assert(count_false(vb) <= 97344) by {
                        lemma_count_false_bound(vb);
                    }
                    lemma_comp_size(cs, comp@, i as int);
                }
                let size = comp.len() as u32;
                let mut t: usize = 0;
                while t < comp.len()
                    invariant
                        t <= comp@.len(),
                        size == comp@.len(),
                        comp@.len() == component_size(cs, i as int),
                        1 <= size <= 97344,
                        valid_cell(i as int),
                        grid.wf(),
                        grid.cells@ == cs,
                        out@.len() == 97344,
                        visited@.len() == 97344,
                        forall|u: int| 0 <= u < comp@.len() ==> valid_cell(#[trigger] comp@[u] as int) && blendable(cs[comp@[u] as int])
                            && visited@[comp@[u] as int] && reaches(cs, i as int, comp@[u] as int),
                        forall|j: int| valid_cell(j) && !blendable(cs[j]) ==> #[trigger] out@[j] == 0,
                        forall|j: int| valid_cell(j) && #[trigger] visited@[j] && blendable(cs[j]) ==> (out@[j] == component_size(cs, j) as u32
                            && component_size(cs, j) >= 1 && component_size(cs, j) <= 97344)
                            || exists|u: int| t <= u < comp@.len() && comp@[u] == j as usize,
                        forall|j: int| valid_cell(j) && !visited@[j] ==> #[trigger] out@[j] == 0,
                    decreases comp@.len() - t,
                {
                    let ci = comp[t];
                    proof {
                        lemma_component_same(cs, i as int, ci as int);
                    }
                    out.set(ci, size);
                    proof {
                        assert forall|j: int| valid_cell(j) && #[trigger] visited@[j] && blendable(cs[j]) implies (out@[j] == component_size(cs, j) as u32
                            && component_size(cs, j) >= 1 && component_size(cs, j) <= 97344)
                            || exists|u: int| t + 1 <= u < comp@.len() && comp@[u] == j as usize by {
                            if j != ci as int && !(out@[j] == component_size(cs, j) as u32 && component_size(cs, j) >= 1 && component_size(cs, j) <= 97344) {
                                let u = choose|u: int| t <= u < comp@.len() && comp@[u] == j as usize;
                                assert(u != t);
                            }
                        }
                    }
                    t = t + 1;
                }
            }
        }
        i = i + 1;
    }
    proof {
        assert forall|j: int| valid_cell(j) implies #[trigger] out@[j] == (if blendable(cs[j]) { component_size(cs, j) as u32 } else { 0u32 })
            && (out@[j] == 0 <==> !blendable(cs[j])) by {
            assert(visited@[j]);
        }
    }
    out
}

pub proof fn lemma_count_false_bound(s: Seq<bool>)
    ensures
        count_false(s) <= s.len(),
    decreases s.len(),
{
    if s.len() > 0 {
        lemma_count_false_bound(s.drop_last());
    }
}

/// A duplicate-free list of exactly the cells of a patch has the patch's size.
proof fn lemma_comp_size(cells: Seq<CellData>, comp: Seq<usize>, s: int)
    requires
        comp.no_duplicates(),
        forall|t: int| 0 <= t < comp.len() ==> #[trigger] reaches(cells, s, comp[t] as int),
        forall|j: int| #[trigger] reaches(cells, s, j) ==> comp.contains(j as usize),
    ensures
        comp.len() == component_size(cells, s),
{
    assert forall|t: usize| comp.to_set().contains(t) <==> component_set(cells, s).contains(t) by {
        if comp.to_set().contains(t) {
            let k = choose|k: int| 0 <= k < comp.len() && comp[k] == t;
            assert(reaches(cells, s, comp[k] as int));
        }
        if component_set(cells, s).contains(t) {
            assert(reaches(cells, s, t as int));
            assert(comp.contains((t as int) as usize));
        }
    }
    assert(comp.to_set() =~= component_set(cells, s));
    comp.unique_seq_to_set();
}

/// Sizes of the equal-surface interior components (4-neighbour), in the
/// order their first cell appears.
pub fn surface_component_sizes(grid: &IslandGenGrid) -> (sizes: Vec<u32>)
    requires
        grid.wf(),
    ensures
        sizes@ == patch_sizes(grid.cells@),
        forall|k: int| 0 <= k < sizes@.len() ==> #[trigger] sizes@[k] >= 1,
        sizes@.len() <= 97344,
{
    let ghost cs = grid.cells@;
    let mut visited = all_unvisited();
    let mut sizes: Vec<u32> = Vec::new();
    let mut i: usize = 0;
    while i < CELL_COUNT
        invariant
            i <= CELL_COUNT,
            grid.wf(),
            grid.cells@ == cs,
            visited@.len() == 97344,
            closed(cs, visited@),
            forall|j: int| valid_cell(j) ==> (#[trigger] visited@[j] <==> (j < i || exists|m: int| 0 <= m < i && #[trigger] reaches(cs, m, j))),
            sizes@ == sizes_upto(cs, i as int),
            forall|k: int| 0 <= k < sizes@.len() ==> #[trigger] sizes@[k] >= 1,
            sizes@.len() + count_false(visited@) <= 97344,
        decreases CELL_COUNT - i,
    {
        let ghost vb = visited@;
        if !visited[i] {
            if !is_blendable_interior(&grid.cells[i]) {
                proof { lemma_count_false_mark(visited@, i as int); }
                visited.set(i, true);
                proof {
                    assert(!is_component_root(cs, i as int));
                    assert forall|a: int, b: int| valid_cell(a) && visited@[a] && #[trigger] patch_step(cs, a, b) implies visited@[b] by {
                        if a != i as int {
                            assert(vb[a]);
                        }
                    }
                    assert forall|j: int| valid_cell(j) implies (#[trigger] visited@[j] <==> (j < i + 1 || exists|m: int| 0 <= m < i + 1 && #[trigger] reaches(cs, m, j))) by {
                        if exists|m: int| 0 <= m < i + 1 && #[trigger] reaches(cs, m, j) {
                            let m = choose|m: int| 0 <= m < i + 1 && #[trigger] reaches(cs, m, j);
                            lemma_reaches_valid(cs, m, j);
                        }
                    }
                }
            } else {
                proof { lemma_count_false_bound(vb); }
                let comp = explore_component(&grid.cells, &mut visited, i, Ghost(grid.cells@));
                proof {
                    lemma_comp_size(cs, comp@, i as int);
                    assert forall|j: int| 0 <= j < i implies !#[trigger] reaches(cs, i as int, j) by {
                        if reaches(cs, i as int, j) {
                            lemma_reaches_sym(cs, i as int, j);
                            lemma_reaches_valid(cs, i as int, j);
                            lemma_closed_reaches(cs, vb, j, i as int);
                        }
                    }
                    assert(is_component_root(cs, i as int));
                    assert forall|j: int| valid_cell(j) implies (#[trigger] visited@[j] <==> (j < i + 1 || exists|m: int| 0 <= m < i + 1 && #[trigger] reaches(cs, m, j))) by {
                        if visited@[j] && !vb[j] {
                            assert(comp@.contains(j as usize));
                            let t = choose|t: int| 0 <= t < comp@.len() && comp@[t] == j as usize;
                            assert(reaches(cs, i as int, comp@[t] as int));
                        }
                        if exists|m: int| 0 <= m < i + 1 && #[trigger] reaches(cs, m, j) {
                            let m = choose|m: int| 0 <= m < i + 1 && #[trigger] reaches(cs, m, j);
                            if m == i as int {
                                assert(comp@.contains(j as usize));
                                let t = choose|t: int| 0 <= t < comp@.len() && comp@[t] == j as usize;
                                assert(visited@[comp@[t] as int]);
                            } else {
                                assert(vb[j]);
                            }
                        }
                        if j == i as int {
                            assert(visited@[comp@[0] as int]);
                        }
                    }
                }
                sizes.push(comp.len() as u32);
            }
        } else {
            proof {
                assert(!(i < i));
                let m = choose|m: int| 0 <= m < i && #[trigger] reaches(cs, m, i as int);
                lemma_reaches_sym(cs, m, i as int);
                assert(reaches(cs, i as int, m));
                assert(!is_component_root(cs, i as int));
                assert forall|j: int| valid_cell(j) implies (#[trigger] visited@[j] <==> (j < i + 1 || exists|m: int| 0 <= m < i + 1 && #[trigger] reaches(cs, m, j))) by {
                    if exists|m2: int| 0 <= m2 < i + 1 && #[trigger] reaches(cs, m2, j) {
                        let m2 = choose|m2: int| 0 <= m2 < i + 1 && #[trigger] reaches(cs, m2, j);
                        if m2 == i as int {
                            lemma_closed_reaches(cs, visited@, i as int, j);
                        }
                    }
                }
            }
        }
        i = i + 1;
    }
    sizes
}

} // verus!

//! Distance from each land cell to the nearest water cell, by breadth-first
//! relaxation over 4-connected land.

use vstd::prelude::*;
use std::collections::VecDeque;
use crate::island::types::CellData;
use crate::island::grid::{IslandGenGrid, CELL_COUNT, valid_cell, step4, lemma_step4, neighbor4};

verus! {

/// Largest distance value; land that no water reaches keeps it.
pub const FAR: u16 = 65535;

/// The distance field `d` over the land mask `land` is settled: water is at
/// 0, land at least 1, no land cell exceeds a neighbour by more than one, and
/// every land cell below `FAR` has a neighbour exactly one closer. These
/// conditions determine the field: it is the length of the shortest
/// 4-connected path through land to a water cell, capped at `FAR`
/// (`law_distance_field_unique`).
pub open spec fn settled(land: Seq<bool>, d: Seq<u16>) -> bool {
    &&& forall|i: int| valid_cell(i) && !land[i] ==> #[trigger] d[i] == 0
    &&& forall|i: int| valid_cell(i) && land[i] ==> #[trigger] d[i] >= 1
    &&& forall|i: int, k: int|
        valid_cell(i) && 0 <= k < 4 && land[i] && #[trigger] step4(i, k) != -1 ==> d[i] <= d[step4(i, k)] + 1
    &&& forall|i: int|
        valid_cell(i) && land[i] && #[trigger] d[i] < 65535 ==> exists|k: int|
            0 <= k < 4 && #[trigger] step4(i, k) != -1 && d[step4(i, k)] + 1 <= d[i]
}

/// Two settled fields over one mask agree: the first never exceeds the second.
proof fn lemma_settled_below(land: Seq<bool>, d1: Seq<u16>, d2: Seq<u16>, bound: nat, i: int)
    requires
        land.len() == 97344,
        settled(land, d1),
        settled(land, d2),
        valid_cell(i),
        d2[i] <= bound,
    ensures
        d1[i] <= d2[i],
    decreases bound,
{
    if land[i] && d2[i] < 65535 {
        let k = choose|k: int| 0 <= k < 4 && #[trigger] step4(i, k) != -1 && d2[step4(i, k)] + 1 <= d2[i];
        let n = step4(i, k);
        lemma_step4(i, k);
        lemma_settled_below(land, d1, d2, (bound - 1) as nat, n);
        assert(d1[i] <= d1[n] + 1);
    } else if !land[i] {
        assert(d1[i] == 0);
    }
}

/// A settled distance field is unique: any two settled fields over the same
/// land mask are equal.
pub proof fn law_distance_field_unique(land: Seq<bool>, d1: Seq<u16>, d2: Seq<u16>)
    requires
        land.len() == 97344,
        d1.len() == 97344,
        d2.len() == 97344,
        settled(land, d1),
        settled(land, d2),
    ensures
        d1 == d2,
{
    assert forall|i: int| 0 <= i < 97344 implies d1[i] == d2[i] by {
        lemma_settled_below(land, d1, d2, d2[i] as nat, i);
        lemma_settled_below(land, d2, d1, d1[i] as nat, i);
    }
    assert(d1 =~= d2);
}

/// Sum of a distance field, the measure the relaxation lowers.
pub open spec fn field_sum(s: Seq<u16>) -> nat
    decreases s.len(),
{
    if s.len() == 0 {
        0
    } else {
        field_sum(s.drop_last()) + s.last() as nat
    }
}

proof fn lemma_field_sum_lower(s: Seq<u16>, i: int, x: u16)
    requires
        0 <= i < s.len(),
        x < s[i],
    ensures
        field_sum(s.update(i, x)) < field_sum(s),
    decreases s.len(),
{
    if i == s.len() - 1 {
        assert(s.update(i, x).drop_last() =~= s.drop_last());
    } else {
        lemma_field_sum_lower(s.drop_last(), i, x);
        assert(s.update(i, x).drop_last() =~= s.drop_last().update(i, x));
    }
}

/// The queue holds `(u, x)` at or after `head`.
pub open spec fn queued(q: Seq<(usize, u16)>, head: int, u: int, x: u16) -> bool {
    exists|t: int| head <= t < q.len() && #[trigger] q[t] == (u as usize, x)
}

/// The invariant of the relaxation.
pub open spec fn relax_inv(land: Seq<bool>, d: Seq<u16>, q: Seq<(usize, u16)>, head: int) -> bool {
    &&& land.len() == 97344
    &&& d.len() == 97344
    &&& 0 <= head <= q.len()
    &&& forall|i: int| valid_cell(i) && !land[i] ==> #[trigger] d[i] == 0
    &&& forall|i: int| valid_cell(i) && land[i] ==> #[trigger] d[i] >= 1
    &&& forall|i: int|
        valid_cell(i) && land[i] && #[trigger] d[i] < 65535 ==> exists|k: int|
            0 <= k < 4 && #[trigger] step4(i, k) != -1 && d[step4(i, k)] + 1 <= d[i]
    &&& forall|t: int|
        head <= t < q.len() ==> valid_cell((#[trigger] q[t]).0 as int) && d[q[t].0 as int] <= q[t].1 && q[t].1 < 65535
    &&& forall|u: int, k: int|
        valid_cell(u) && 0 <= k < 4 && #[trigger] step4(u, k) != -1 && land[step4(u, k)] ==> d[step4(u, k)]
            <= d[u] + 1 || queued(q, head, u, d[u])
}

/// Relax the neighbour in direction `k` of a popped cell `u` with distance
/// `dist`: lower it to `dist + 1` when that is closer.
fn relax_one(land: &Vec<bool>, d: &mut Vec<u16>, q: &mut VecDeque<(usize, u16)>, u: usize, dist: u16, k: usize)
    requires
        valid_cell(u as int),
        k < 4,
        dist < 65535,
        land@.len() == 97344,
        old(d)@.len() == 97344,
    ensures
        final(d)@.len() == 97344,
        ({
            let n = step4(u as int, k as int);
            if n != -1 && land@[n] && dist + 1 < old(d)@[n] {
                final(d)@ == old(d)@.update(n, (dist + 1) as u16) && final(q)@ == old(q)@.push((n as usize, (dist + 1) as u16))
            } else {
                final(d)@ == old(d)@ && final(q)@ == old(q)@
            }
        }),
{
    if let Some(n) = neighbor4(u, k) {
        if land[n] {
            let next = dist + 1;
            if next < d[n] {
                d.set(n, next);
                q.push_back((n, next));
            }
        }
    }
}

/// Pop the front of the queue and relax its four neighbours. The queue holds
/// the entries of `hist` from `head0` on; the result extends `hist` with the
/// entries pushed, and the queue then holds its entries from `head0 + 1` on.
#[verifier::rlimit(40)]
fn relax_entry(
    land: &Vec<bool>,
    d: &mut Vec<u16>,
    q: &mut VecDeque<(usize, u16)>,
    Ghost(hist): Ghost<Seq<(usize, u16)>>,
    Ghost(head0): Ghost<int>,
) -> (next: Ghost<Seq<(usize, u16)>>)
    requires
        relax_inv(land@, old(d)@, hist, head0),
        old(q)@ == hist.subrange(head0, hist.len() as int),
        head0 < hist.len(),
    ensures
        relax_inv(land@, final(d)@, next@, head0 + 1),
        final(q)@ == next@.subrange(head0 + 1, next@.len() as int),
        5 * field_sum(final(d)@) + final(q)@.len() < 5 * field_sum(old(d)@) + old(q)@.len(),
{
    let ghost lf = land@;
    let ghost head = head0 + 1;
    let ghost q0 = hist;
    let ghost mut qs = hist;
    let (u, dist) = q.pop_front().unwrap();
    let ghost d0 = d@;
    assert(q0[head - 1] == (u, dist));
    assert(q@ =~= qs.subrange(head, qs.len() as int));
    proof {
        assert forall|w: int, kk: int|
            valid_cell(w) && 0 <= kk < 4 && #[trigger] step4(w, kk) != -1 && lf[step4(w, kk)] implies d0[step4(w, kk)]
                <= d0[w] + 1 || queued(q0, head, w, d0[w]) || (w == u && d0[w] == dist && kk >= 0) by {
            if !(d0[step4(w, kk)] <= d0[w] + 1) && !(w == u && d0[w] == dist) {
                assert(queued(q0, head - 1, w, d0[w]));
                let t = choose|t: int| head - 1 <= t < q0.len() && #[trigger] q0[t] == (w as usize, d0[w]);
                assert(t != head - 1);
            }
        }
    }
    let mut k: usize = 0;
    while k < 4
        invariant
            k <= 4,
            land@ == lf,
            lf.len() == 97344,
            d@.len() == 97344,
            valid_cell(u as int),
            d@[u as int] == d0[u as int],
            d0[u as int] <= dist,
            dist < 65535,
            1 <= head <= qs.len(),
            q@ == qs.subrange(head, qs.len() as int),
            qs.len() >= q0.len(),
            forall|t: int| 0 <= t < q0.len() ==> qs[t] == q0[t],
            q0[head - 1] == (u, dist),
            5 * field_sum(d@) + qs.len() <= 5 * field_sum(d0) + q0.len(),
            forall|i: int| valid_cell(i) && !lf[i] ==> #[trigger] d@[i] == 0,
            forall|i: int| valid_cell(i) && lf[i] ==> #[trigger] d@[i] >= 1,
            forall|i: int| valid_cell(i) ==> #[trigger] d@[i] <= d0[i],
            forall|i: int|
                valid_cell(i) && lf[i] && #[trigger] d@[i] < 65535 ==> exists|kk: int|
                    0 <= kk < 4 && #[trigger] step4(i, kk) != -1 && d@[step4(i, kk)] + 1 <= d@[i],
            forall|t: int|
                head <= t < qs.len() ==> valid_cell((#[trigger] qs[t]).0 as int) && d@[qs[t].0 as int] <= qs[t].1
                    && qs[t].1 < 65535,
            forall|kk: int| 0 <= kk < k && #[trigger] step4(u as int, kk) != -1 && lf[step4(u as int, kk)]
                ==> d@[step4(u as int, kk)] <= dist + 1,
            forall|w: int, kk: int|
                valid_cell(w) && 0 <= kk < 4 && #[trigger] step4(w, kk) != -1 && lf[step4(w, kk)] ==> d@[step4(w, kk)]
                    <= d@[w] + 1 || queued(qs, head, w, d@[w]) || (w == u && d@[w] == dist && kk >= k),
        decreases 4 - k,
    {
        let ghost db = d@;
        let ghost qb = qs;
        let ghost n = step4(u as int, k as int);
        proof {
            lemma_step4(u as int, k as int);
            if n != -1 && lf[n] && dist + 1 < db[n] {
                lemma_field_sum_lower(db, n, (dist + 1) as u16);
            }
        }
        relax_one(land, d, q, u, dist, k);
        proof {
            if n != -1 && lf[n] && dist + 1 < db[n] {
                qs = qs.push((n as usize, (dist + 1) as u16));
                assert(q@ =~= qs.subrange(head, qs.len() as int));
                assert(n != u as int);
                assert(qs[qs.len() - 1] == (n as usize, (dist + 1) as u16));
                assert forall|i: int|
                    valid_cell(i) && lf[i] && #[trigger] d@[i] < 65535 implies exists|kk: int|
                        0 <= kk < 4 && #[trigger] step4(i, kk) != -1 && d@[step4(i, kk)] + 1 <= d@[i] by {
                    if i == n {
                        let r = crate::island::grid::reverse_dir(k as int);
                        assert(step4(n, r) == u as int);
                    } else {
                        let kk = choose|kk: int| 0 <= kk < 4 && #[trigger] step4(i, kk) != -1 && db[step4(i, kk)] + 1 <= db[i];
                        lemma_step4(i, kk);
                    }
                }
                assert forall|w: int, kk: int|
                    valid_cell(w) && 0 <= kk < 4 && #[trigger] step4(w, kk) != -1 && lf[step4(w, kk)] implies d@[step4(w, kk)]
                        <= d@[w] + 1 || queued(qs, head, w, d@[w]) || (w == u && d@[w] == dist && kk >= k + 1) by {
                    lemma_step4(w, kk);
                    if w == n {
                        assert(qs[qs.len() - 1] == (n as usize, d@[n]));
                    } else if queued(qb, head, w, db[w]) {
                        let t = choose|t: int| head <= t < qb.len() && #[trigger] qb[t] == (w as usize, db[w]);
                        assert(qs[t] == qb[t]);
                    }
                }
            } else {
                assert forall|w: int, kk: int|
                    valid_cell(w) && 0 <= kk < 4 && #[trigger] step4(w, kk) != -1 && lf[step4(w, kk)] implies d@[step4(w, kk)]
                        <= d@[w] + 1 || queued(qs, head, w, d@[w]) || (w == u && d@[w] == dist && kk >= k + 1) by {
                    lemma_step4(w, kk);
                }
            }
        }
        k = k + 1;
    }
    Ghost(qs)
}

fn land_mask(cells: &Vec<CellData>) -> (r: Vec<bool>)
    ensures
        r@.len() == cells@.len(),
        forall|i: int| 0 <= i < cells@.len() ==> r@[i] == cells@[i].role.land(),
{
    let mut r: Vec<bool> = Vec::new();
    let mut i: usize = 0;
    while i < cells.len()
        invariant
            i <= cells.len(),
            r@.len() == i,
            forall|j: int| 0 <= j < i ==> r@[j] == cells@[j].role.land(),
        decreases cells.len() - i,
    {
        r.push(cells[i].role.is_land());
        i = i + 1;
    }
    r
}

/// Distances of the cells of `cells`.
pub open spec fn dist_field(cells: Seq<CellData>) -> Seq<u16> {
    Seq::new(cells.len(), |i: int| cells[i].dist_to_water)
}

/// Which cells of `cells` are land.
pub open spec fn land_field(cells: Seq<CellData>) -> Seq<bool> {
    Seq::new(cells.len(), |i: int| cells[i].role.land())
}

/// Fill `dist_to_water` of every cell: 0 on water, and on land the length of
/// the shortest 4-connected path through land to water (capped at `FAR`).
pub fn compute_distance_to_water(grid: &mut IslandGenGrid)
    requires
        old(grid).wf(),
    ensures
        final(grid).wf(),
        final(grid).recipe == old(grid).recipe,
        final(grid).interior_holes_filled == old(grid).interior_holes_filled,
        forall|i: int| valid_cell(i) ==> #[trigger] final(grid).cells@[i] == (CellData {
            dist_to_water: final(grid).cells@[i].dist_to_water,
            ..old(grid).cells@[i]
        }),
        settled(land_field(old(grid).cells@), dist_field(final(grid).cells@)),
{
    let land = land_mask(&grid.cells);
    let ghost lf = land_field(grid.cells@);
    assert(land@ =~= lf);
    let mut d: Vec<u16> = Vec::new();
    let mut q: VecDeque<(usize, u16)> = VecDeque::new();
    let mut i: usize = 0;
    while i < CELL_COUNT
        invariant
            i <= CELL_COUNT,
            land@ == lf,
            lf.len() == 97344,
            d@.len() == i,
            forall|j: int| 0 <= j < i ==> #[trigger] d@[j] == (if lf[j] { 65535u16 } else { 0u16 }),
            forall|t: int| 0 <= t < q@.len() ==> #[trigger] q@[t] == (q@[t].0, 0u16) && q@[t].0 < i && !lf[q@[t].0 as int],
            forall|j: int| 0 <= j < i && !lf[j] ==> queued(q@, 0, j, 0u16),
        decreases CELL_COUNT - i,
    {
        let ghost q0 = q@;
        if land[i] {
            d.push(FAR);
        } else {
            d.push(0);
            q.push_back((i, 0));
            assert(q@[q@.len() - 1] == (i, 0u16));
        }
        proof {
            assert forall|j: int| 0 <= j < i + 1 && !lf[j] implies queued(q@, 0, j, 0u16) by {
                if j < i {
                    let t = choose|t: int| 0 <= t < q0.len() && #[trigger] q0[t] == (j as usize, 0u16);
                    assert(q@[t] == q0[t]);
                } else {
                    assert(q@[q@.len() - 1] == (i, 0u16));
                }
            }
        }
        i = i + 1;
    }
    proof {
        assert forall|u: int, k: int|
            valid_cell(u) && 0 <= k < 4 && #[trigger] step4(u, k) != -1 && lf[step4(u, k)] implies d@[step4(u, k)]
                <= d@[u] + 1 || queued(q@, 0, u, d@[u]) by {
            lemma_step4(u, k);
        }
    }
    let ghost mut hist = q@;
    let ghost mut head: int = 0;
    assert(q@ =~= hist.subrange(head, hist.len() as int));
    while q.len() > 0
        invariant
            relax_inv(lf, d@, hist, head),
            q@ == hist.subrange(head, hist.len() as int),
            land@ == lf,
        decreases 5 * field_sum(d@) + q@.len(),
    {
        let next = relax_entry(&land, &mut d, &mut q, Ghost(hist), Ghost(head));
        proof {
            hist = next@;
            head = head + 1;
        }
    }
    let ghost cells0 = grid.cells@;
    let mut j: usize = 0;
    while j < CELL_COUNT
        invariant
            j <= CELL_COUNT,
            grid.wf(),
            cells0 == old(grid).cells@,
            grid.recipe == old(grid).recipe,
            grid.interior_holes_filled == old(grid).interior_holes_filled,
            d@.len() == 97344,
            forall|i: int| 0 <= i < j ==> #[trigger] grid.cells@[i] == (CellData { dist_to_water: d@[i], ..cells0[i] }),
            forall|i: int| j <= i < 97344 ==> #[trigger] grid.cells@[i] == cells0[i],
        decreases CELL_COUNT - j,
    {
        let c = grid.cells[j];
        grid.cells.set(j, CellData { dist_to_water: d[j], ..c });
        j = j + 1;
    }
    proof {
        assert(dist_field(grid.cells@) =~= d@);
        assert forall|u: int, k: int|
            valid_cell(u) && 0 <= k < 4 && lf[u] && #[trigger] step4(u, k) != -1 implies d@[u] <= d@[step4(u, k)] + 1 by {
            lemma_step4(u, k);
            let r = crate::island::grid::reverse_dir(k);
            let v = step4(u, k);
            assert(step4(v, r) == u);
            assert(!queued(hist, head, v, d@[v]));
        }
    }
}

} // verus!

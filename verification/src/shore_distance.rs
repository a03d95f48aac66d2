//! Distance of each water cell of the shore showcase to the nearest sand
//! cell, through 4-connected water, over the sampled window around the shore.
//! Sampling which window cells are water is the caller's.

use vstd::prelude::*;
use std::collections::VecDeque;
use crate::island::grid::reverse_dir;
use crate::shore::{hash2, spec_hash2};

verus! {

/// Columns of the sampled window: the shore's 40 columns and two more on
/// each side.
pub const WINDOW_COLS: usize = 45;

/// Rows of the sampled window: the shore's 28 rows and two more on each side.
pub const WINDOW_ROWS: usize = 33;

/// Cells of the sampled window.
pub const WINDOW_CELLS: usize = 1485;

/// Whether `i` names a window cell.
pub open spec fn valid_wcell(i: int) -> bool {
    0 <= i < 1485
}

/// Column of window cell `i`.
pub open spec fn wcol(i: int) -> int {
    i % 45
}

/// Row of window cell `i`.
pub open spec fn wrow(i: int) -> int {
    i / 45
}

/// 4-neighbour of window cell `i` in direction `d` (0 up a row, 1 right,
/// 2 down a row, 3 left), or -1 off the window.
pub open spec fn wstep(i: int, d: int) -> int {
    if d == 0 {
        if wrow(i) > 0 { i - 45 } else { -1 }
    } else if d == 1 {
        if wcol(i) < 44 { i + 1 } else { -1 }
    } else if d == 2 {
        if wrow(i) < 32 { i + 45 } else { -1 }
    } else {
        if wcol(i) > 0 { i - 1 } else { -1 }
    }
}

/// Window neighbours stay in the window and lead back the opposite way.
pub proof fn lemma_wstep(i: int, d: int)
    requires
        valid_wcell(i),
        0 <= d < 4,
    ensures
        wstep(i, d) == -1 || valid_wcell(wstep(i, d)),
        wstep(i, d) != -1 ==> wstep(wstep(i, d), reverse_dir(d)) == i,
        wstep(i, d) != i,
{
    assert(0 <= wcol(i) < 45);
    assert(0 <= wrow(i) < 33);
    assert(i == wrow(i) * 45 + wcol(i));
    if d == 0 && wrow(i) > 0 {
        assert(wcol(i - 45) == wcol(i));
        assert(wrow(i - 45) == wrow(i) - 1);
    } else if d == 1 && wcol(i) < 44 {
        assert(wcol(i + 1) == wcol(i) + 1);
        assert(wrow(i + 1) == wrow(i));
    } else if d == 2 && wrow(i) < 32 {
        assert(wcol(i + 45) == wcol(i));
        assert(wrow(i + 45) == wrow(i) + 1);
    } else if d == 3 && wcol(i) > 0 {
        assert(wcol(i - 1) == wcol(i) - 1);
        assert(wrow(i - 1) == wrow(i));
    }
}

/// Exec form of `wstep`.
fn wneighbor(i: usize, d: usize) -> (r: Option<usize>)
    requires
        valid_wcell(i as int),
        d < 4,
    ensures
        wstep(i as int, d as int) == -1 ==> r is None,
        wstep(i as int, d as int) != -1 ==> r == Some(wstep(i as int, d as int) as usize),
        r matches Some(j) ==> valid_wcell(j as int),
{
    proof { lemma_wstep(i as int, d as int); }
    let col = i % 45;
    let row = i / 45;
    if d == 0 {
        if row > 0 { Some(i - 45) } else { None }
    } else if d == 1 {
        if col < 44 { Some(i + 1) } else { None }
    } else if d == 2 {
        if row < 32 { Some(i + 45) } else { None }
    } else {
        if col > 0 { Some(i - 1) } else { None }
    }
}

/// Largest distance value; water that no water reaches keeps it.
pub const UNREACHED: u16 = 65535;

/// The distance field `d` over the water mask `water` is settled: sand is at
/// 0, water at least 1, no water cell exceeds a neighbour by more than one,
/// and every water cell below `UNREACHED` has a neighbour one closer. These
/// conditions determine the field (`law_shore_distance_unique`): on water it
/// is the length of the shortest 4-connected path through water to sand, and
/// `UNREACHED` where no such path exists.
pub open spec fn settled(water: Seq<bool>, d: Seq<u16>) -> bool {
    &&& forall|i: int| valid_wcell(i) && !water[i] ==> #[trigger] d[i] == 0
    &&& forall|i: int| valid_wcell(i) && water[i] ==> #[trigger] d[i] >= 1
    &&& forall|i: int, k: int|
        valid_wcell(i) && 0 <= k < 4 && water[i] && #[trigger] wstep(i, k) != -1 ==> d[i] <= d[wstep(i, k)] + 1
    &&& forall|i: int|
        valid_wcell(i) && water[i] && #[trigger] d[i] < 65535 ==> exists|k: int|
            0 <= k < 4 && #[trigger] wstep(i, k) != -1 && d[wstep(i, k)] + 1 <= d[i]
}

/// Two settled fields over one mask agree: the first never exceeds the second.
proof fn lemma_settled_below(water: Seq<bool>, d1: Seq<u16>, d2: Seq<u16>, bound: nat, i: int)
    requires
        water.len() == 1485,
        settled(water, d1),
        settled(water, d2),
        valid_wcell(i),
        d2[i] <= bound,
    ensures
        d1[i] <= d2[i],
    decreases bound,
{
    if water[i] && d2[i] < 65535 {
        let k = choose|k: int| 0 <= k < 4 && #[trigger] wstep(i, k) != -1 && d2[wstep(i, k)] + 1 <= d2[i];
        let n = wstep(i, k);
        lemma_wstep(i, k);
        lemma_settled_below(water, d1, d2, (bound - 1) as nat, n);
        assert(d1[i] <= d1[n] + 1);
    } else if !water[i] {
        assert(d1[i] == 0);
    }
}

/// A settled distance field is unique: any two settled fields over the same
/// water mask are equal.
pub proof fn law_shore_distance_unique(water: Seq<bool>, d1: Seq<u16>, d2: Seq<u16>)
    requires
        water.len() == 1485,
        d1.len() == 1485,
        d2.len() == 1485,
        settled(water, d1),
        settled(water, d2),
    ensures
        d1 == d2,
{
    assert forall|i: int| 0 <= i < 1485 implies d1[i] == d2[i] by {
        lemma_settled_below(water, d1, d2, d2[i] as nat, i);
        lemma_settled_below(water, d2, d1, d1[i] as nat, i);
    }
    assert(d1 =~= d2);
}

/// Sum of a distance field, the measure the relaxation lowers.
pub open spec fn field_sum(s: Seq<u16>) -> nat
    decreases s.len(),
{
    if s.len() == 0 {
        0
    } else {
        field_sum(s.drop_last()) + s.last() as nat
    }
}

proof fn lemma_field_sum_lower(s: Seq<u16>, i: int, x: u16)
    requires
        0 <= i < s.len(),
        x < s[i],
    ensures
        field_sum(s.update(i, x)) < field_sum(s),
    decreases s.len(),
{
    if i == s.len() - 1 {
        assert(s.update(i, x).drop_last() =~= s.drop_last());
    } else {
        lemma_field_sum_lower(s.drop_last(), i, x);
        assert(s.update(i, x).drop_last() =~= s.drop_last().update(i, x));
    }
}

/// The queue holds `(u, x)` at or after `head`.
pub open spec fn queued(q: Seq<(usize, u16)>, head: int, u: int, x: u16) -> bool {
    exists|t: int| head <= t < q.len() && #[trigger] q[t] == (u as usize, x)
}

/// The invariant of the relaxation.
pub open spec fn relax_inv(water: Seq<bool>, d: Seq<u16>, q: Seq<(usize, u16)>, head: int) -> bool {
    &&& water.len() == 1485
    &&& d.len() == 1485
    &&& 0 <= head <= q.len()
    &&& forall|i: int| valid_wcell(i) && !water[i] ==> #[trigger] d[i] == 0
    &&& forall|i: int| valid_wcell(i) && water[i] ==> #[trigger] d[i] >= 1
    &&& forall|i: int|
        valid_wcell(i) && water[i] && #[trigger] d[i] < 65535 ==> exists|k: int|
            0 <= k < 4 && #[trigger] wstep(i, k) != -1 && d[wstep(i, k)] + 1 <= d[i]
    &&& forall|t: int|
        head <= t < q.len() ==> valid_wcell((#[trigger] q[t]).0 as int) && d[q[t].0 as int] <= q[t].1 && q[t].1 < 65535
    &&& forall|u: int, k: int|
        valid_wcell(u) && 0 <= k < 4 && #[trigger] wstep(u, k) != -1 && water[wstep(u, k)] ==> d[wstep(u, k)]
            <= d[u] + 1 || queued(q, head, u, d[u])
}

/// Relax the neighbour in direction `k` of a popped cell `u` with distance
/// `dist`: lower it to `dist + 1` when that is closer.
fn relax_one(water: &Vec<bool>, d: &mut Vec<u16>, q: &mut VecDeque<(usize, u16)>, u: usize, dist: u16, k: usize)
    requires
        valid_wcell(u as int),
        k < 4,
        dist < 65535,
        water@.len() == 1485,
        old(d)@.len() == 1485,
    ensures
        final(d)@.len() == 1485,
        ({
            let n = wstep(u as int, k as int);
            if n != -1 && water@[n] && dist + 1 < old(d)@[n] {
                final(d)@ == old(d)@.update(n, (dist + 1) as u16) && final(q)@ == old(q)@.push((n as usize, (dist + 1) as u16))
            } else {
                final(d)@ == old(d)@ && final(q)@ == old(q)@
            }
        }),
{
    if let Some(n) = wneighbor(u, k) {
        if water[n] {
            let next = dist + 1;
            if next < d[n] {
                d.set(n, next);
                q.push_back((n, next));
            }
        }
    }
}

/// Pop the front of the queue and relax its four neighbours. The queue holds
/// the entries of `hist` from `head0` on; the result extends `hist` with the
/// entries pushed, and the queue then holds its entries from `head0 + 1` on.
#[verifier::rlimit(40)]
fn relax_entry(
    water: &Vec<bool>,
    d: &mut Vec<u16>,
    q: &mut VecDeque<(usize, u16)>,
    Ghost(hist): Ghost<Seq<(usize, u16)>>,
    Ghost(head0): Ghost<int>,
) -> (next: Ghost<Seq<(usize, u16)>>)
    requires
        relax_inv(water@, old(d)@, hist, head0),
        old(q)@ == hist.subrange(head0, hist.len() as int),
        head0 < hist.len(),
    ensures
        relax_inv(water@, final(d)@, next@, head0 + 1),
        final(q)@ == next@.subrange(head0 + 1, next@.len() as int),
        5 * field_sum(final(d)@) + final(q)@.len() < 5 * field_sum(old(d)@) + old(q)@.len(),
{
    let ghost lf = water@;
    let ghost head = head0 + 1;
    let ghost q0 = hist;
    let ghost mut qs = hist;
    let (u, dist) = q.pop_front().unwrap();
    let ghost d0 = d@;
    assert(q0[head - 1] == (u, dist));
    assert(q@ =~= qs.subrange(head, qs.len() as int));
    proof {
        assert forall|w: int, kk: int|
            valid_wcell(w) && 0 <= kk < 4 && #[trigger] wstep(w, kk) != -1 && lf[wstep(w, kk)] implies d0[wstep(w, kk)]
                <= d0[w] + 1 || queued(q0, head, w, d0[w]) || (w == u && d0[w] == dist && kk >= 0) by {
            if !(d0[wstep(w, kk)] <= d0[w] + 1) && !(w == u && d0[w] == dist) {
                assert(queued(q0, head - 1, w, d0[w]));
                let t = choose|t: int| head - 1 <= t < q0.len() && #[trigger] q0[t] == (w as usize, d0[w]);
                assert(t != head - 1);
            }
        }
    }
    let mut k: usize = 0;
    while k < 4
        invariant
            k <= 4,
            water@ == lf,
            lf.len() == 1485,
            d@.len() == 1485,
            valid_wcell(u as int),
            d@[u as int] == d0[u as int],
            d0[u as int] <= dist,
            dist < 65535,
            1 <= head <= qs.len(),
            q@ == qs.subrange(head, qs.len() as int),
            qs.len() >= q0.len(),
            forall|t: int| 0 <= t < q0.len() ==> qs[t] == q0[t],
            q0[head - 1] == (u, dist),
            5 * field_sum(d@) + qs.len() <= 5 * field_sum(d0) + q0.len(),
            forall|i: int| valid_wcell(i) && !lf[i] ==> #[trigger] d@[i] == 0,
            forall|i: int| valid_wcell(i) && lf[i] ==> #[trigger] d@[i] >= 1,
            forall|i: int| valid_wcell(i) ==> #[trigger] d@[i] <= d0[i],
            forall|i: int|
                valid_wcell(i) && lf[i] && #[trigger] d@[i] < 65535 ==> exists|kk: int|
                    0 <= kk < 4 && #[trigger] wstep(i, kk) != -1 && d@[wstep(i, kk)] + 1 <= d@[i],
            forall|t: int|
                head <= t < qs.len() ==> valid_wcell((#[trigger] qs[t]).0 as int) && d@[qs[t].0 as int] <= qs[t].1
                    && qs[t].1 < 65535,
            forall|kk: int| 0 <= kk < k && #[trigger] wstep(u as int, kk) != -1 && lf[wstep(u as int, kk)]
                ==> d@[wstep(u as int, kk)] <= dist + 1,
            forall|w: int, kk: int|
                valid_wcell(w) && 0 <= kk < 4 && #[trigger] wstep(w, kk) != -1 && lf[wstep(w, kk)] ==> d@[wstep(w, kk)]
                    <= d@[w] + 1 || queued(qs, head, w, d@[w]) || (w == u && d@[w] == dist && kk >= k),
        decreases 4 - k,
    {
        let ghost db = d@;
        let ghost qb = qs;
        let ghost n = wstep(u as int, k as int);
        proof {
            lemma_wstep(u as int, k as int);
            if n != -1 && lf[n] && dist + 1 < db[n] {
                lemma_field_sum_lower(db, n, (dist + 1) as u16);
            }
        }
        relax_one(water, d, q, u, dist, k);
        proof {
            if n != -1 && lf[n] && dist + 1 < db[n] {
                qs = qs.push((n as usize, (dist + 1) as u16));
                assert(q@ =~= qs.subrange(head, qs.len() as int));
                assert(n != u as int);
                assert(qs[qs.len() - 1] == (n as usize, (dist + 1) as u16));
                assert forall|i: int|
                    valid_wcell(i) && lf[i] && #[trigger] d@[i] < 65535 implies exists|kk: int|
                        0 <= kk < 4 && #[trigger] wstep(i, kk) != -1 && d@[wstep(i, kk)] + 1 <= d@[i] by {
                    if i == n {
                        let r = reverse_dir(k as int);
                        assert(wstep(n, r) == u as int);
                    } else {
                        let kk = choose|kk: int| 0 <= kk < 4 && #[trigger] wstep(i, kk) != -1 && db[wstep(i, kk)] + 1 <= db[i];
                        lemma_wstep(i, kk);
                    }
                }
                assert forall|w: int, kk: int|
                    valid_wcell(w) && 0 <= kk < 4 && #[trigger] wstep(w, kk) != -1 && lf[wstep(w, kk)] implies d@[wstep(w, kk)]
                        <= d@[w] + 1 || queued(qs, head, w, d@[w]) || (w == u && d@[w] == dist && kk >= k + 1) by {
                    lemma_wstep(w, kk);
                    if w == n {
                        assert(qs[qs.len() - 1] == (n as usize, d@[n]));
                    } else if queued(qb, head, w, db[w]) {
                        let t = choose|t: int| head <= t < qb.len() && #[trigger] qb[t] == (w as usize, db[w]);
                        assert(qs[t] == qb[t]);
                    }
                }
            } else {
                assert forall|w: int, kk: int|
                    valid_wcell(w) && 0 <= kk < 4 && #[trigger] wstep(w, kk) != -1 && lf[wstep(w, kk)] implies d@[wstep(w, kk)]
                        <= d@[w] + 1 || queued(qs, head, w, d@[w]) || (w == u && d@[w] == dist && kk >= k + 1) by {
                    lemma_wstep(w, kk);
                }
            }
        }
        k = k + 1;
    }
    Ghost(qs)
}

/// Distance of every window cell to the nearest sand cell: 0 on sand, on
/// water the length of the shortest 4-connected path through water to sand,
/// and `UNREACHED` on water no sand reaches. `water[i]` tells whether window
/// cell `i` (row-major, `WINDOW_COLS` per row) is water.
pub fn shore_distance_field(water: &Vec<bool>) -> (d: Vec<u16>)
    requires
        water@.len() == 1485,
    ensures
        d@.len() == 1485,
        settled(water@, d@),
{
    let ghost lf = water@;
    let mut d: Vec<u16> = Vec::new();
    let mut q: VecDeque<(usize, u16)> = VecDeque::new();
    let mut i: usize = 0;
    while i < WINDOW_CELLS
        invariant
            i <= WINDOW_CELLS,
            water@ == lf,
            lf.len() == 1485,
            d@.len() == i,
            forall|j: int| 0 <= j < i ==> #[trigger] d@[j] == (if lf[j] { 65535u16 } else { 0u16 }),
            forall|t: int| 0 <= t < q@.len() ==> #[trigger] q@[t] == (q@[t].0, 0u16) && q@[t].0 < i && !lf[q@[t].0 as int],
            forall|j: int| 0 <= j < i && !lf[j] ==> queued(q@, 0, j, 0u16),
        decreases WINDOW_CELLS - i,
    {
        let ghost q0 = q@;
        if water[i] {
            d.push(UNREACHED);
        } else {
            d.push(0);
            q.push_back((i, 0));
            assert(q@[q@.len() - 1] == (i, 0u16));
        }
        proof {
            assert forall|j: int| 0 <= j < i + 1 && !lf[j] implies queued(q@, 0, j, 0u16) by {
                if j < i {
                    let t = choose|t: int| 0 <= t < q0.len() && #[trigger] q0[t] == (j as usize, 0u16);
                    assert(q@[t] == q0[t]);
                } else {
                    assert(q@[q@.len() - 1] == (i, 0u16));
                }
            }
        }
        i = i + 1;
    }
    proof {
        assert forall|u: int, k: int|
            valid_wcell(u) && 0 <= k < 4 && #[trigger] wstep(u, k) != -1 && lf[wstep(u, k)] implies d@[wstep(u, k)]
                <= d@[u] + 1 || queued(q@, 0, u, d@[u]) by {
            lemma_wstep(u, k);
        }
    }
    let ghost mut hist = q@;
    let ghost mut head: int = 0;
    assert(q@ =~= hist.subrange(head, hist.len() as int));
    while q.len() > 0
        invariant
            relax_inv(lf, d@, hist, head),
            q@ == hist.subrange(head, hist.len() as int),
            water@ == lf,
        decreases 5 * field_sum(d@) + q@.len(),
    {
        let next = relax_entry(water, &mut d, &mut q, Ghost(hist), Ghost(head));
        proof {
            hist = next@;
            head = head + 1;
        }
    }
    proof {
        assert forall|u: int, k: int|
            valid_wcell(u) && 0 <= k < 4 && lf[u] && #[trigger] wstep(u, k) != -1 implies d@[u] <= d@[wstep(u, k)] + 1 by {
            lemma_wstep(u, k);
            let r = reverse_dir(k);
            let v = wstep(u, k);
            assert(wstep(v, r) == u);
            assert(!queued(hist, head, v, d@[v]));
        }
    }
    d
}

/// Depth band of an open-water display tile of the shore showcase.
#[derive(Clone, Copy, Debug, PartialEq, Eq, Structural)]
pub enum DepthBand {
    Shallow,
    Mid,
    Deep,
}

/// Window cell of showcase cell `(c, r)`; the window starts two cells before
/// the showcase on each axis.
pub open spec fn window_index(c: int, r: int) -> int {
    (r + 2) * 45 + (c + 2)
}

/// What a display tile reads from one window cell: its distance, or 99 on
/// water that no sand reaches.
pub open spec fn reading(v: u16) -> int {
    if v == 65535 { 99 } else { v as int }
}

/// Smaller of two integers.
pub open spec fn min2(a: int, b: int) -> int {
    if a <= b { a } else { b }
}

/// Distance to shore under display tile `(i, j)`: the least reading over the
/// four cells the tile's corners sit on, `(i-1, j-1)`, `(i, j-1)`, `(i-1, j)`
/// and `(i, j)`.
pub open spec fn spec_nearest_shore(d: Seq<u16>, i: int, j: int) -> int {
    min2(
        min2(reading(d[window_index(i - 1, j - 1)]), reading(d[window_index(i, j - 1)])),
        min2(reading(d[window_index(i - 1, j)]), reading(d[window_index(i, j)])),
    )
}

fn read_cell(d: &Vec<u16>, c: i32, r: i32) -> (v: u16)
    requires
        d@.len() == 1485,
        -2 <= c <= 42,
        -2 <= r <= 30,
    ensures
        v == reading(d@[window_index(c as int, r as int)]),
{
    let idx: usize = ((r + 2) * 45 + (c + 2)) as usize;
    let raw = d[idx];
    if raw == UNREACHED { 99 } else { raw }
}

/// Distance to shore under display tile `(i, j)` of the showcase, from the
/// field that `shore_distance_field` computed.
pub fn nearest_shore(d: &Vec<u16>, i: i32, j: i32) -> (r: u16)
    requires
        d@.len() == 1485,
        0 <= i <= 40,
        0 <= j <= 28,
    ensures
        r == spec_nearest_shore(d@, i as int, j as int),
{
    let a = read_cell(d, i - 1, j - 1);
    let b = read_cell(d, i, j - 1);
    let c = read_cell(d, i - 1, j);
    let e = read_cell(d, i, j);
    let ab = if a <= b { a } else { b };
    let ce = if c <= e { c } else { e };
    if ab <= ce { ab } else { ce }
}

/// Band of an open-water tile at distance `near` from shore: shallow within
/// one cell, mid within three, deep beyond.
pub open spec fn spec_depth_band(near: int) -> DepthBand {
    if near <= 1 {
        DepthBand::Shallow
    } else if near <= 3 {
        DepthBand::Mid
    } else {
        DepthBand::Deep
    }
}

/// Exec form of `spec_depth_band`.
pub fn depth_band(near: u16) -> (b: DepthBand)
    ensures
        b == spec_depth_band(near as int),
{
    if near <= 1 {
        DepthBand::Shallow
    } else if near <= 3 {
        DepthBand::Mid
    } else {
        DepthBand::Deep
    }
}

/// Number of shallow-water loop variants.
pub const SHALLOW_VARIANTS: u32 = 12;

/// How an open-water display tile is drawn: its band, which shallow variant
/// it uses when shallow, and its quarter-turn rotation.
#[derive(Clone, Copy, Debug, PartialEq, Eq, Structural)]
pub struct OpenWaterTile {
    pub band: DepthBand,
    pub shallow_variant: u32,
    pub quarter: u8,
}

/// The open-water tile at display position `(i, j)`: the band comes from the
/// distance to shore, variant and rotation from the tile's position hash, so
/// large expanses do not visibly repeat.
pub fn open_water_tile(d: &Vec<u16>, i: i32, j: i32) -> (t: OpenWaterTile)
    requires
        d@.len() == 1485,
        0 <= i <= 40,
        0 <= j <= 28,
    ensures
        t.band == spec_depth_band(spec_nearest_shore(d@, i as int, j as int)),
        t.shallow_variant == spec_hash2(i, j) % 12,
        t.quarter == spec_hash2(i, j) % 4,
{
    let near = nearest_shore(d, i, j);
    let seed = hash2(i, j);
    OpenWaterTile { band: depth_band(near), shallow_variant: seed % SHALLOW_VARIANTS, quarter: (seed % 4) as u8 }
}

} // verus!

//! Votes of the cells bordering a component: which surfaces its outside
//! neighbours show, slot by slot, and which surface wins by count with the
//! slug order breaking ties.

use vstd::prelude::*;
use crate::island::types::{CellData, TerrainRole, SurfaceId};
use crate::island::grid::step4;
use crate::island::patches::{blendable, tally_le, tally_index, lemma_tally_index};
use crate::island::surfaces::spec_slug_rank;

verus! {

/// Slot `k` of a component scan: direction `k % 4` from cell `comp[k / 4]`.
pub open spec fn slot_cell(comp: Seq<usize>, k: int) -> int {
    step4(comp[k / 4] as int, k % 4)
}

/// The neighbour in slot `k` lies on the grid, off the component.
pub open spec fn slot_outside(comp: Seq<usize>, k: int) -> bool {
    slot_cell(comp, k) != -1 && !comp.contains(slot_cell(comp, k) as usize)
}

/// Slot `k` shows an interior cell of another surface than `own`.
pub open spec fn interior_vote(cells: Seq<CellData>, comp: Seq<usize>, own: SurfaceId, k: int) -> bool {
    slot_outside(comp, k) && blendable(cells[slot_cell(comp, k)]) && cells[slot_cell(comp, k)].surface != own
}

/// Slot `k` shows land that does not blend.
pub open spec fn land_vote(cells: Seq<CellData>, comp: Seq<usize>, k: int) -> bool {
    slot_outside(comp, k) && cells[slot_cell(comp, k)].role.land() && !blendable(cells[slot_cell(comp, k)])
}

/// Surfaces shown by the interior votes of the first `n` slots.
pub open spec fn interior_border(cells: Seq<CellData>, comp: Seq<usize>, own: SurfaceId, n: int) -> Seq<SurfaceId>
    decreases n,
{
    if n <= 0 {
        Seq::empty()
    } else if interior_vote(cells, comp, own, n - 1) {
        interior_border(cells, comp, own, n - 1).push(cells[slot_cell(comp, n - 1)].surface)
    } else {
        interior_border(cells, comp, own, n - 1)
    }
}

/// Surfaces shown by the land votes of the first `n` slots.
pub open spec fn land_border(cells: Seq<CellData>, comp: Seq<usize>, n: int) -> Seq<SurfaceId>
    decreases n,
{
    if n <= 0 {
        Seq::empty()
    } else if land_vote(cells, comp, n - 1) {
        land_border(cells, comp, n - 1).push(cells[slot_cell(comp, n - 1)].surface)
    } else {
        land_border(cells, comp, n - 1)
    }
}

/// Role of the first land vote for surface `x` among the first `n` slots.
pub open spec fn first_land_role(cells: Seq<CellData>, comp: Seq<usize>, x: SurfaceId, n: int) -> Option<TerrainRole>
    decreases n,
{
    if n <= 0 {
        None
    } else if first_land_role(cells, comp, x, n - 1) is Some {
        first_land_role(cells, comp, x, n - 1)
    } else if land_vote(cells, comp, n - 1) && cells[slot_cell(comp, n - 1)].surface == x {
        Some(cells[slot_cell(comp, n - 1)].role)
    } else {
        None
    }
}

/// Number of votes for `x`.
pub open spec fn count_of(s: Seq<SurfaceId>, x: SurfaceId) -> nat
    decreases s.len(),
{
    if s.len() == 0 {
        0
    } else {
        count_of(s.drop_last(), x) + if s.last() == x { 1nat } else { 0nat }
    }
}

/// `x` wins the vote: it has votes, and every surface with votes has fewer,
/// or as many and an earlier slug.
pub open spec fn wins_vote(s: Seq<SurfaceId>, x: SurfaceId) -> bool {
    &&& count_of(s, x) > 0
    &&& forall|y: SurfaceId| #[trigger] count_of(s, y) > 0 ==> count_of(s, y) < count_of(s, x)
        || (count_of(s, y) == count_of(s, x) && spec_slug_rank(y) <= spec_slug_rank(x))
}

/// `counts` tallies the votes `s`: one entry per voted surface, holding its
/// number of votes.
pub open spec fn tallies(counts: Seq<(SurfaceId, u32)>, s: Seq<SurfaceId>) -> bool {
    &&& forall|a: int, b: int| 0 <= a < b < counts.len() ==> (#[trigger] counts[a]).0 != (#[trigger] counts[b]).0
    &&& forall|a: int| 0 <= a < counts.len() ==> (#[trigger] counts[a]).1 == count_of(s, counts[a].0) && count_of(s, counts[a].0) > 0
    &&& forall|x: SurfaceId| #[trigger] count_of(s, x) > 0 ==> exists|a: int| 0 <= a < counts.len() && (#[trigger] counts[a]).0 == x
}

pub proof fn lemma_tallies_empty()
    ensures
        tallies(Seq::empty(), Seq::empty()),
{
}

/// Counting one more vote for `x` as `bump_count` does keeps the tally.
pub proof fn lemma_tallies_bump(counts: Seq<(SurfaceId, u32)>, s: Seq<SurfaceId>, x: SurfaceId, next: Seq<(SurfaceId, u32)>)
    requires
        tallies(counts, s),
        forall|k: int| 0 <= k < counts.len() ==> (#[trigger] counts[k]).1 < u32::MAX,
        ({
            let i = tally_index(counts, x);
            if i >= 0 {
                next == counts.update(i, (x, (counts[i].1 + 1) as u32))
            } else {
                next == counts.push((x, 1u32))
            }
        }),
    ensures
        tallies(next, s.push(x)),
{
    let t = s.push(x);
    assert(t.drop_last() =~= s);
    lemma_tally_index(counts, x);
    let i = tally_index(counts, x);
    assert forall|y: SurfaceId| #[trigger] count_of(t, y) == count_of(s, y) + if y == x { 1nat } else { 0nat } by {}
    if i < 0 {
        assert(count_of(s, x) == 0) by {
            if count_of(s, x) > 0 {
                let a = choose|a: int| 0 <= a < counts.len() && (#[trigger] counts[a]).0 == x;
            }
        }
        assert forall|a: int| 0 <= a < next.len() implies (#[trigger] next[a]).1 == count_of(t, next[a].0) && count_of(t, next[a].0) > 0 by {
            if a < counts.len() {
                assert(next[a] == counts[a]);
                assert(count_of(t, counts[a].0) == count_of(s, counts[a].0) + if counts[a].0 == x { 1nat } else { 0nat });
            } else {
                assert(count_of(t, x) == count_of(s, x) + 1);
            }
        }
        assert forall|y: SurfaceId| #[trigger] count_of(t, y) > 0 implies exists|a: int| 0 <= a < next.len() && (#[trigger] next[a]).0 == y by {
            assert(count_of(t, y) == count_of(s, y) + if y == x { 1nat } else { 0nat });
            if y == x {
                assert(next[counts.len() as int].0 == x);
            } else {
                let a = choose|a: int| 0 <= a < counts.len() && (#[trigger] counts[a]).0 == y;
                assert(next[a].0 == y);
            }
        }
    } else {
        assert forall|a: int| 0 <= a < next.len() implies (#[trigger] next[a]).1 == count_of(t, next[a].0) && count_of(t, next[a].0) > 0 by {
            assert(count_of(t, counts[a].0) == count_of(s, counts[a].0) + if counts[a].0 == x { 1nat } else { 0nat });
            if a == i {
                assert(next[a] == (x, (counts[i].1 + 1) as u32));
            } else {
                assert(next[a] == counts[a]);
                assert(counts[a].0 != x) by {
                    if counts[a].0 == x {
                        if a < i {
                        } else {
                            assert(counts[i].0 != counts[a].0);
                        }
                    }
                }
            }
        }
        assert forall|y: SurfaceId| #[trigger] count_of(t, y) > 0 implies exists|a: int| 0 <= a < next.len() && (#[trigger] next[a]).0 == y by {
            assert(count_of(t, y) == count_of(s, y) + if y == x { 1nat } else { 0nat });
            if y == x {
                assert(next[i].0 == x);
            } else {
                let a = choose|a: int| 0 <= a < counts.len() && (#[trigger] counts[a]).0 == y;
                assert(next[a].0 == y);
            }
        }
    }
}

/// The entry `pick_max_surface` picks from a tally wins the vote.
pub proof fn lemma_tally_winner(counts: Seq<(SurfaceId, u32)>, s: Seq<SurfaceId>, j: int)
    requires
        tallies(counts, s),
        0 <= j < counts.len(),
        forall|i: int| 0 <= i < counts.len() ==> tally_le(#[trigger] counts[i], counts[j]),
    ensures
        wins_vote(s, counts[j].0),
{
    assert forall|y: SurfaceId| #[trigger] count_of(s, y) > 0 implies count_of(s, y) < count_of(s, counts[j].0)
        || (count_of(s, y) == count_of(s, counts[j].0) && spec_slug_rank(y) <= spec_slug_rank(counts[j].0)) by {
        let a = choose|a: int| 0 <= a < counts.len() && (#[trigger] counts[a]).0 == y;
        assert(tally_le(counts[a], counts[j]));
    }
}

/// No tally entries: no votes.
pub proof fn lemma_tally_none(counts: Seq<(SurfaceId, u32)>, s: Seq<SurfaceId>)
    requires
        tallies(counts, s),
        counts.len() == 0,
    ensures
        s.len() == 0,
{
    if s.len() > 0 {
        assert(s.drop_last().push(s.last()) =~= s);
        assert(count_of(s, s.last()) > 0);
    }
}

/// Once a role is found for `x`, later slots keep it.
pub proof fn lemma_first_land_role_stable(cells: Seq<CellData>, comp: Seq<usize>, x: SurfaceId, m: int, n: int)
    requires
        0 <= m <= n,
        first_land_role(cells, comp, x, m) is Some,
    ensures
        first_land_role(cells, comp, x, n) == first_land_role(cells, comp, x, m),
    decreases n - m,
{
    if n > m {
        lemma_first_land_role_stable(cells, comp, x, m, n - 1);
    }
}

} // verus!

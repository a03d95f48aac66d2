//! Open-sea connectivity: which water cells reach the world border through
//! 4-connected water.

use vstd::prelude::*;
use crate::island::grid::{
    CELL_COUNT, valid_cell, on_border, step4, reverse_dir, lemma_step4, neighbor4, is_border_cell,
};

verus! {

/// `s[n]` for a neighbour `n`, or false off the grid.
pub open spec fn reach_via(water: Seq<bool>, n: int, k: nat) -> bool
    decreases k, 1nat,
{
    n != -1 && reaches_sea_within(water, n, k)
}

/// Water cell `i` reaches a border water cell in at most `k` steps through
/// 4-connected water.
pub open spec fn reaches_sea_within(water: Seq<bool>, i: int, k: nat) -> bool
    decreases k, 0nat,
{
    &&& valid_cell(i)
    &&& water[i]
    &&& (on_border(i) || (k > 0 && {
        let k1 = (k - 1) as nat;
        ||| reach_via(water, step4(i, 0), k1)
        ||| reach_via(water, step4(i, 1), k1)
        ||| reach_via(water, step4(i, 2), k1)
        ||| reach_via(water, step4(i, 3), k1)
    }))
}

/// Water cell `i` is connected to the open sea: some 4-connected water path
/// leads from it to the border of the world.
pub open spec fn connected_to_sea(water: Seq<bool>, i: int) -> bool {
    exists|k: nat| reaches_sea_within(water, i, k)
}

/// A water cell next to a sea-connected cell is sea-connected.
proof fn lemma_reach_step(water: Seq<bool>, c: int, d: int, k: nat)
    requires
        water.len() == 97344,
        valid_cell(c),
        0 <= d < 4,
        reaches_sea_within(water, c, k),
        step4(c, d) != -1,
        water[step4(c, d)],
    ensures
        reaches_sea_within(water, step4(c, d), k + 1),
{
    lemma_step4(c, d);
    let j = step4(c, d);
    let r = reverse_dir(d);
    assert(step4(j, r) == c);
    assert(reach_via(water, step4(j, r), k));
}

/// Number of `false` entries.
pub open spec fn count_false(s: Seq<bool>) -> nat
    decreases s.len(),
{
    if s.len() == 0 {
        0
    } else {
        count_false(s.drop_last()) + if s.last() { 0nat } else { 1nat }
    }
}

pub proof fn lemma_count_false_mark(s: Seq<bool>, i: int)
    requires
        0 <= i < s.len(),
        !s[i],
    ensures
        count_false(s.update(i, true)) + 1 == count_false(s),
    decreases s.len(),
{
    if i == s.len() - 1 {
        assert(s.update(i, true).drop_last() =~= s.drop_last());
    } else {
        lemma_count_false_mark(s.drop_last(), i);
        assert(s.update(i, true).drop_last() =~= s.drop_last().update(i, true));
    }
}

/// Every open neighbour of `j` is marked.
pub open spec fn closed_at(water: Seq<bool>, ext: Seq<bool>, j: int) -> bool {
    forall|d: int| 0 <= d < 4 ==> {
        let n = #[trigger] step4(j, d);
        n != -1 && water[n] ==> ext[n]
    }
}

/// The invariant of the fill: every marked cell is sea-connected, every
/// border water cell is marked, and every marked cell off the stack has all
/// its water neighbours marked.
pub open spec fn fill_inv(water: Seq<bool>, ext: Seq<bool>, stack: Seq<usize>) -> bool {
    &&& water.len() == 97344
    &&& ext.len() == 97344
    &&& forall|t: int| 0 <= t < stack.len() ==> valid_cell(#[trigger] stack[t] as int) && ext[stack[t] as int]
    &&& forall|j: int| valid_cell(j) && #[trigger] ext[j] ==> water[j] && connected_to_sea(water, j)
    &&& forall|j: int| valid_cell(j) && water[j] && on_border(j) ==> #[trigger] ext[j]
    &&& forall|j: int| valid_cell(j) && #[trigger] ext[j] && !stack.contains(j as usize) ==> closed_at(water, ext, j)
}

/// Once nothing is pending, the marked cells are exactly the sea-connected ones.
proof fn lemma_fill_complete(water: Seq<bool>, ext: Seq<bool>, i: int, k: nat)
    requires
        fill_inv(water, ext, Seq::<usize>::empty()),
        reaches_sea_within(water, i, k),
    ensures
        ext[i],
    decreases k,
{
    if !on_border(i) {
        let k1 = (k - 1) as nat;
        let d = if reach_via(water, step4(i, 0), k1) {
            0int
        } else if reach_via(water, step4(i, 1), k1) {
            1int
        } else if reach_via(water, step4(i, 2), k1) {
            2int
        } else {
            3int
        };
        let j = step4(i, d);
        lemma_step4(i, d);
        lemma_fill_complete(water, ext, j, k1);
        assert(!Seq::<usize>::empty().contains(j as usize));
        assert(closed_at(water, ext, j));
        assert(step4(j, reverse_dir(d)) == i);
    }
}

/// Mark cell `j` and push it when it is unmarked water.
fn mark_open(water: &Vec<bool>, ext: &mut Vec<bool>, stack: &mut Vec<usize>, j: usize)
    requires
        valid_cell(j as int),
        water@.len() == 97344,
        old(ext)@.len() == 97344,
    ensures
        (water@[j as int] && !old(ext)@[j as int]) ==> final(ext)@ == old(ext)@.update(j as int, true)
            && final(stack)@ == old(stack)@.push(j),
        !(water@[j as int] && !old(ext)@[j as int]) ==> final(ext)@ == old(ext)@ && final(stack)@ == old(stack)@,
{
    if water[j] && !ext[j] {
        ext.set(j, true);
        stack.push(j);
    }
}

/// Mark every water cell connected to the world border through 4-connected
/// water. `water[i]` tells whether cell `i` is open water.
pub fn flood_fill_open_water(water: &Vec<bool>) -> (ext: Vec<bool>)
    requires
        water@.len() == 97344,
    ensures
        ext@.len() == 97344,
        forall|i: int| valid_cell(i) ==> (ext@[i] <==> connected_to_sea(water@, i)),
{
    let mut ext: Vec<bool> = Vec::new();
    let mut stack: Vec<usize> = Vec::new();
    let mut i: usize = 0;
    while i < CELL_COUNT
        invariant
            i <= CELL_COUNT,
            water@.len() == 97344,
            ext@.len() == i,
            forall|j: int| 0 <= j < i ==> (#[trigger] ext@[j] <==> (water@[j] && on_border(j))),
            forall|t: int| 0 <= t < stack.len() ==> (#[trigger] stack@[t]) < i && ext@[stack@[t] as int],
            forall|j: int| 0 <= j < i && #[trigger] ext@[j] ==> stack@.contains(j as usize),
        decreases CELL_COUNT - i,
    {
        let m = water[i] && is_border_cell(i);
        let ghost s_old = stack@;
        let ghost e_old = ext@;
        ext.push(m);
        if m {
            stack.push(i);
        }
        proof {
            assert forall|j: int| 0 <= j < i + 1 && #[trigger] ext@[j] implies stack@.contains(j as usize) by {
                if j < i {
                    assert(e_old[j]);
                    let t = choose|t: int| 0 <= t < s_old.len() && s_old[t] == j as usize;
                    assert(stack@[t] == j as usize);
                } else {
                    assert(stack@[stack@.len() - 1] == i);
                }
            }
        }
        i = i + 1;
    }
    assert forall|j: int| valid_cell(j) && #[trigger] ext@[j] implies water@[j] && connected_to_sea(water@, j) by {
        assert(reaches_sea_within(water@, j, 0));
    }
    while stack.len() > 0
        invariant
            fill_inv(water@, ext@, stack@),
        decreases 5 * count_false(ext@) + stack.len(),
    {
        let ghost s_full = stack@;
        let c = stack.pop().unwrap();
        let ghost e0 = ext@;
        let ghost s0 = stack@;
        proof {
            assert(s_full =~= s0.push(c));
            assert forall|j: int| valid_cell(j) && #[trigger] ext@[j] && !stack@.contains(j as usize) && j != c implies closed_at(water@, ext@, j) by {
                if s_full.contains(j as usize) {
                    let t = choose|t: int| 0 <= t < s_full.len() && s_full[t] == j as usize;
                    if t < s0.len() {
                        assert(s0[t] == j as usize);
                    }
                }
            }
        }
        let mut d: usize = 0;
        while d < 4
            invariant
                d <= 4,
                valid_cell(c as int),
                ext@[c as int],
                water@.len() == 97344,
                ext@.len() == 97344,
                forall|t: int| 0 <= t < stack.len() ==> valid_cell(#[trigger] stack@[t] as int) && ext@[stack@[t] as int],
                forall|j: int| valid_cell(j) && #[trigger] ext@[j] ==> water@[j] && connected_to_sea(water@, j),
                forall|j: int| valid_cell(j) && water@[j] && on_border(j) ==> #[trigger] ext@[j],
                forall|j: int| valid_cell(j) && #[trigger] ext@[j] && !stack@.contains(j as usize) && j != c ==> closed_at(water@, ext@, j),
                forall|dd: int| 0 <= dd < d ==> {
                    let n = #[trigger] step4(c as int, dd);
                    n != -1 && water@[n] ==> ext@[n]
                },
                forall|j: int| valid_cell(j) && e0[j] ==> ext@[j],
                count_false(ext@) + (stack@.len() - s0.len()) == count_false(e0),
                stack@.len() >= s0.len(),
                forall|t: int| 0 <= t < s0.len() ==> stack@[t] == s0[t],
            decreases 4 - d,
        {
            match neighbor4(c, d) {
                Some(j) => {
                    let ghost before = ext@;
                    let ghost sb = stack@;
                    if water[j] && !ext[j] {
                        proof {
                            let k = choose|k: nat| reaches_sea_within(water@, c as int, k);
                            lemma_reach_step(water@, c as int, d as int, k);
                            lemma_count_false_mark(ext@, j as int);
                        }
                    }
                    mark_open(water, &mut ext, &mut stack, j);
                    proof {
                        assert forall|j2: int| valid_cell(j2) && #[trigger] ext@[j2] && !stack@.contains(j2 as usize) && j2 != c implies closed_at(water@, ext@, j2) by {
                            if before[j2] {
                                if !sb.contains(j2 as usize) {
                                    assert(closed_at(water@, before, j2));
                                    assert forall|dd: int| 0 <= dd < 4 implies {
                                        let n = #[trigger] step4(j2, dd);
                                        n != -1 && water@[n] ==> ext@[n]
                                    } by {
                                        lemma_step4(j2, dd);
                                    }
                                } else {
                                    let t = choose|t: int| 0 <= t < sb.len() && sb[t] == j2 as usize;
                                    assert(stack@[t] == j2 as usize);
                                }
                            } else {
                                assert(stack@[stack@.len() - 1] == j);
                            }
                        }
                    }
                },
                None => {},
            }
            d = d + 1;
        }
        proof {
            assert(closed_at(water@, ext@, c as int));
            assert forall|j: int| valid_cell(j) && #[trigger] ext@[j] && !stack@.contains(j as usize) implies closed_at(water@, ext@, j) by {
                if j != c as int {
                }
            }
        }
    }
    proof {
        assert(stack@ =~= Seq::<usize>::empty());
        assert forall|i: int| valid_cell(i) implies (ext@[i] <==> connected_to_sea(water@, i)) by {
            if connected_to_sea(water@, i) {
                let k = choose|k: nat| reaches_sea_within(water@, i, k);
                lemma_fill_complete(water@, ext@, i, k);
            }
        }
    }
    ext
}

} // verus!

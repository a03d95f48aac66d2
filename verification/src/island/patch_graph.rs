//! The patch graph of a grid: interior cells linked to their 4-neighbours of
//! the same surface. Paths, reachability, components and their sizes, with
//! the facts the component searches rest on.

use vstd::prelude::*;
use crate::island::types::CellData;
use crate::island::grid::{valid_cell, step4, reverse_dir, lemma_step4};
use crate::island::patches::blendable;
use vstd::set_lib::{set_int_range, lemma_int_range, lemma_len_subset, lemma_map_size};

verus! {

/// `b` is one of the four neighbours of `a`.
pub open spec fn adjacent(a: int, b: int) -> bool {
    b != -1 && (step4(a, 0) == b || step4(a, 1) == b || step4(a, 2) == b || step4(a, 3) == b)
}

/// One step of a patch: `a` and `b` are neighbouring interior cells of the
/// same surface.
pub open spec fn patch_step(cells: Seq<CellData>, a: int, b: int) -> bool {
    &&& valid_cell(a)
    &&& adjacent(a, b)
    &&& blendable(cells[a])
    &&& blendable(cells[b])
    &&& cells[a].surface == cells[b].surface
}

/// `p` walks the patch graph: it starts on an interior cell and each cell
/// is one patch step from the one before.
pub open spec fn is_patch_path(cells: Seq<CellData>, p: Seq<int>) -> bool {
    &&& p.len() >= 1
    &&& valid_cell(p[0])
    &&& blendable(cells[p[0]])
    &&& forall|i: int, j: int| 0 <= i && j == i + 1 && j < p.len() ==> #[trigger] patch_step(cells, p[i], p[j])
}

/// `t` lies in the patch of `s`.
pub open spec fn reaches(cells: Seq<CellData>, s: int, t: int) -> bool {
    exists|p: Seq<int>| #[trigger] is_patch_path(cells, p) && p[0] == s && p.last() == t
}

/// The cells of the patch of `s`.
pub open spec fn component_set(cells: Seq<CellData>, s: int) -> Set<usize> {
    Set::new(|t: usize| reaches(cells, s, t as int))
}

/// Number of cells in the patch of `s`.
pub open spec fn component_size(cells: Seq<CellData>, s: int) -> nat {
    component_set(cells, s).len()
}

/// Visited marks closed under patch steps: a step from a marked cell leads
/// to a marked cell.
pub open spec fn closed(cells: Seq<CellData>, v: Seq<bool>) -> bool {
    forall|a: int, b: int| valid_cell(a) && v[a] && #[trigger] patch_step(cells, a, b) ==> v[b]
}

/// A patch step lands on a cell, and can be walked back.
pub proof fn lemma_step_back(cells: Seq<CellData>, a: int, b: int)
    requires
        patch_step(cells, a, b),
    ensures
        valid_cell(b),
        patch_step(cells, b, a),
{
    lemma_step4(a, 0);
    lemma_step4(a, 1);
    lemma_step4(a, 2);
    lemma_step4(a, 3);
    let d = if step4(a, 0) == b { 0int } else if step4(a, 1) == b { 1int } else if step4(a, 2) == b { 2int } else { 3int };
    assert(step4(b, reverse_dir(d)) == a);
    assert(0 <= reverse_dir(d) < 4);
}

/// Every interior cell is in its own patch.
pub proof fn lemma_reaches_self(cells: Seq<CellData>, s: int)
    requires
        valid_cell(s),
        blendable(cells[s]),
    ensures
        reaches(cells, s, s),
{
    let p = seq![s];
    assert(is_patch_path(cells, p));
}

/// A patch grows by one step.
pub proof fn lemma_reaches_step(cells: Seq<CellData>, s: int, a: int, b: int)
    requires
        reaches(cells, s, a),
        patch_step(cells, a, b),
    ensures
        reaches(cells, s, b),
{
    let p = choose|p: Seq<int>| #[trigger] is_patch_path(cells, p) && p[0] == s && p.last() == a;
    let q = p.push(b);
    assert forall|i: int, j: int| 0 <= i && j == i + 1 && j < q.len() implies #[trigger] patch_step(cells, q[i], q[j]) by {
        if j < p.len() {
            assert(q[i] == p[i] && q[j] == p[j]);
            assert(patch_step(cells, p[i], p[j]));
        } else {
            assert(q[i] == a && q[j] == b);
        }
    }
    assert(is_patch_path(cells, q));
}

/// Every cell of a patch path is a valid interior cell.
pub proof fn lemma_path_cells(cells: Seq<CellData>, p: Seq<int>, k: int)
    requires
        is_patch_path(cells, p),
        0 <= k < p.len(),
    ensures
        valid_cell(p[k]),
        blendable(cells[p[k]]),
    decreases k,
{
    if k > 0 {
        lemma_path_cells(cells, p, k - 1);
        assert(patch_step(cells, p[k - 1], p[k]));
        lemma_step_back(cells, p[k - 1], p[k]);
    }
}

/// A patch seen from any of its cells: reachability is symmetric.
pub proof fn lemma_reaches_sym(cells: Seq<CellData>, s: int, t: int)
    requires
        reaches(cells, s, t),
    ensures
        reaches(cells, t, s),
{
    let p = choose|p: Seq<int>| #[trigger] is_patch_path(cells, p) && p[0] == s && p.last() == t;
    let n = p.len();
    let q = Seq::new(n, |i: int| p[n - 1 - i]);
    lemma_path_cells(cells, p, n - 1);
    assert forall|i: int, j: int| 0 <= i && j == i + 1 && j < q.len() implies #[trigger] patch_step(cells, q[i], q[j]) by {
        let a = n - 1 - j;
        let b = n - 1 - i;
        assert(q[i] == p[b] && q[j] == p[a]);
        assert(patch_step(cells, p[a], p[b]));
        lemma_step_back(cells, p[a], p[b]);
    }
    assert(q[0] == t);
    assert(q.last() == s);
    assert(is_patch_path(cells, q));
}

/// Marks closed under steps cover the whole patch of a marked cell.
pub proof fn lemma_closed_reaches(cells: Seq<CellData>, v: Seq<bool>, s: int, t: int)
    requires
        closed(cells, v),
        v.len() == 97344,
        v[s],
        reaches(cells, s, t),
    ensures
        v[t],
{
    let p = choose|p: Seq<int>| #[trigger] is_patch_path(cells, p) && p[0] == s && p.last() == t;
    lemma_closed_path(cells, v, p, p.len() - 1);
}

proof fn lemma_closed_path(cells: Seq<CellData>, v: Seq<bool>, p: Seq<int>, k: int)
    requires
        closed(cells, v),
        is_patch_path(cells, p),
        v[p[0]],
        0 <= k < p.len(),
    ensures
        v[p[k]],
    decreases k,
{
    if k > 0 {
        lemma_closed_path(cells, v, p, k - 1);
        lemma_path_cells(cells, p, k - 1);
        assert(patch_step(cells, p[k - 1], p[k]));
    }
}

/// A patch is never partly inside a closed marking: a cell outside it has
/// no patch-mate inside it.
pub proof fn lemma_closed_excludes(cells: Seq<CellData>, v: Seq<bool>, s: int, t: int)
    requires
        closed(cells, v),
        v.len() == 97344,
        !v[s],
        reaches(cells, s, t),
    ensures
        !v[t],
{
    if v[t] {
        lemma_reaches_sym(cells, s, t);
        lemma_closed_reaches(cells, v, t, s);
    }
}

/// Only valid interior cells are reached.
pub proof fn lemma_reaches_valid(cells: Seq<CellData>, s: int, t: int)
    requires
        reaches(cells, s, t),
    ensures
        valid_cell(s),
        valid_cell(t),
        blendable(cells[s]),
        blendable(cells[t]),
{
    let p = choose|p: Seq<int>| #[trigger] is_patch_path(cells, p) && p[0] == s && p.last() == t;
    lemma_path_cells(cells, p, p.len() - 1);
}

/// Patches chain: reachability is transitive.
pub proof fn lemma_reaches_trans(cells: Seq<CellData>, s: int, a: int, t: int)
    requires
        reaches(cells, s, a),
        reaches(cells, a, t),
    ensures
        reaches(cells, s, t),
{
    let p = choose|p: Seq<int>| #[trigger] is_patch_path(cells, p) && p[0] == s && p.last() == a;
    let q = choose|q: Seq<int>| #[trigger] is_patch_path(cells, q) && q[0] == a && q.last() == t;
    let r = p + q.drop_first();
    assert forall|i: int, j: int| 0 <= i && j == i + 1 && j < r.len() implies #[trigger] patch_step(cells, r[i], r[j]) by {
        if j < p.len() {
            assert(r[i] == p[i] && r[j] == p[j]);
            assert(patch_step(cells, p[i], p[j]));
        } else if i == p.len() - 1 {
            assert(r[i] == a && r[j] == q[1]);
            assert(patch_step(cells, q[0], q[1]));
        } else {
            let qi = i - p.len() + 1;
            assert(r[i] == q[qi] && r[j] == q[qi + 1]);
            assert(patch_step(cells, q[qi], q[qi + 1]));
        }
    }
    assert(r[0] == s);
    assert(r.last() == t) by {
        if q.len() == 1 {
            assert(r =~= p);
        }
    }
    assert(is_patch_path(cells, r));
}

/// Cells of one patch see the same patch.
pub proof fn lemma_component_same(cells: Seq<CellData>, s: int, a: int)
    requires
        reaches(cells, s, a),
    ensures
        component_set(cells, s) == component_set(cells, a),
        component_size(cells, s) == component_size(cells, a),
{
    lemma_reaches_sym(cells, s, a);
    assert forall|t: usize| component_set(cells, s).contains(t) <==> component_set(cells, a).contains(t) by {
        if reaches(cells, s, t as int) {
            lemma_reaches_trans(cells, a, s, t as int);
        }
        if reaches(cells, a, t as int) {
            lemma_reaches_trans(cells, s, a, t as int);
        }
    }
    assert(component_set(cells, s) =~= component_set(cells, a));
}

/// `i` is the first cell of its patch in row-major order.
pub open spec fn is_component_root(cells: Seq<CellData>, i: int) -> bool {
    &&& valid_cell(i)
    &&& blendable(cells[i])
    &&& forall|j: int| 0 <= j < i ==> !#[trigger] reaches(cells, i, j)
}

/// Sizes of the patches whose first cell comes before `n`, in the order of
/// their first cells.
pub open spec fn sizes_upto(cells: Seq<CellData>, n: int) -> Seq<u32>
    decreases n,
{
    if n <= 0 {
        Seq::empty()
    } else if is_component_root(cells, n - 1) {
        sizes_upto(cells, n - 1).push(component_size(cells, n - 1) as u32)
    } else {
        sizes_upto(cells, n - 1)
    }
}

/// Sizes of all patches of the grid, in the order of their first cells.
pub open spec fn patch_sizes(cells: Seq<CellData>) -> Seq<u32> {
    sizes_upto(cells, 97344)
}

/// The patches of a grid, each named by its first cell.
pub open spec fn patch_roots(cells: Seq<CellData>) -> Set<int> {
    Set::new(|i: int| is_component_root(cells, i))
}

/// Number of patches of a grid.
pub open spec fn patch_count(cells: Seq<CellData>) -> nat {
    patch_roots(cells).len()
}

/// First cell of the patch of `a`.
pub open spec fn root_of(cells: Seq<CellData>, a: int) -> int {
    choose|r: int| is_component_root(cells, r) && reaches(cells, r, a)
}

/// A grid has finitely many patches, no more than it has cells.
pub proof fn lemma_patch_roots_finite(cells: Seq<CellData>)
    ensures
        patch_roots(cells).finite(),
        patch_count(cells) <= 97344,
{
    lemma_int_range(0, 97344);
    assert(patch_roots(cells).subset_of(set_int_range(0, 97344)));
    lemma_len_subset(patch_roots(cells), set_int_range(0, 97344));
}

/// Every interior cell lies in the patch of a first cell.
pub proof fn lemma_has_root(cells: Seq<CellData>, a: int)
    requires
        valid_cell(a),
        blendable(cells[a]),
    ensures
        is_component_root(cells, root_of(cells, a)),
        reaches(cells, root_of(cells, a), a),
    decreases a,
{
    if is_component_root(cells, a) {
        lemma_reaches_self(cells, a);
    } else {
        let j = choose|j: int| 0 <= j < a && #[trigger] reaches(cells, a, j);
        lemma_reaches_valid(cells, a, j);
        lemma_has_root(cells, j);
        let r = root_of(cells, j);
        lemma_reaches_sym(cells, a, j);
        lemma_reaches_trans(cells, r, j, a);
    }
}

/// Two first cells whose patches share a cell are the same.
pub proof fn lemma_root_unique(cells: Seq<CellData>, r1: int, r2: int, a: int)
    requires
        is_component_root(cells, r1),
        is_component_root(cells, r2),
        reaches(cells, r1, a),
        reaches(cells, r2, a),
    ensures
        r1 == r2,
{
    lemma_reaches_sym(cells, r2, a);
    lemma_reaches_trans(cells, r1, a, r2);
    lemma_reaches_sym(cells, r1, r2);
    if r1 < r2 {
        assert(reaches(cells, r2, r1));
    } else if r2 < r1 {
        assert(reaches(cells, r1, r2));
    }
}

/// `g` treats each patch step of `cp` alike on both ends: same surface,
/// both interior or neither.
pub open spec fn steps_uniform(cp: Seq<CellData>, g: Seq<CellData>) -> bool {
    forall|a: int, b: int| #[trigger] patch_step(cp, a, b) ==> g[a].surface == g[b].surface && blendable(g[a]) == blendable(g[b])
}

/// Along a patch path of `cp`, a grid treating its steps alike keeps one
/// surface and one interior status, and links the path when it is interior.
proof fn lemma_uniform_path(cp: Seq<CellData>, g: Seq<CellData>, p: Seq<int>, k: int)
    requires
        steps_uniform(cp, g),
        is_patch_path(cp, p),
        0 <= k < p.len(),
    ensures
        g[p[k]].surface == g[p[0]].surface,
        blendable(g[p[k]]) == blendable(g[p[0]]),
        blendable(g[p[0]]) ==> reaches(g, p[0], p[k]),
    decreases k,
{
    if k == 0 {
        if blendable(g[p[0]]) {
            lemma_reaches_self(g, p[0]);
        }
    } else {
        lemma_uniform_path(cp, g, p, k - 1);
        assert(patch_step(cp, p[k - 1], p[k]));
        if blendable(g[p[0]]) {
            lemma_path_cells(cp, p, k - 1);
            assert(patch_step(g, p[k - 1], p[k]));
            lemma_reaches_step(g, p[0], p[k - 1], p[k]);
        }
    }
}

/// A patch of `cp` is, in a grid treating its steps alike, all of one
/// surface and interior status, and within one patch when interior.
pub proof fn lemma_uniform_reaches(cp: Seq<CellData>, g: Seq<CellData>, a: int, b: int)
    requires
        steps_uniform(cp, g),
        reaches(cp, a, b),
    ensures
        g[a].surface == g[b].surface,
        blendable(g[a]) == blendable(g[b]),
        blendable(g[a]) ==> reaches(g, a, b),
{
    let p = choose|p: Seq<int>| #[trigger] is_patch_path(cp, p) && p[0] == a && p.last() == b;
    lemma_uniform_path(cp, g, p, p.len() - 1);
}

/// `g` took an interior cell of `cp` out of the interior, or links in one
/// patch two cells that `cp` kept apart.
pub open spec fn merges_patches(cp: Seq<CellData>, g: Seq<CellData>) -> bool {
    (exists|a: int| valid_cell(a) && blendable(cp[a]) && !#[trigger] blendable(g[a]))
        || (exists|a: int, b: int| #[trigger] patch_step(g, a, b) && !reaches(cp, a, b))
}

/// A grid `g` that only takes cells out of the interior, treats each patch
/// step of `cp` alike, and merges patches of `cp`, has fewer patches than `cp`.
pub proof fn lemma_patch_count_drops(cp: Seq<CellData>, g: Seq<CellData>)
    requires
        forall|j: int| valid_cell(j) && #[trigger] blendable(g[j]) ==> blendable(cp[j]),
        steps_uniform(cp, g),
        merges_patches(cp, g),
    ensures
        patch_count(g) < patch_count(cp),
{
    let rg = patch_roots(g);
    let rc = patch_roots(cp);
    let f = |r: int| root_of(cp, r);
    lemma_patch_roots_finite(g);
    lemma_patch_roots_finite(cp);
    assert forall|r: int| #[trigger] rg.contains(r) implies rc.contains(f(r)) && reaches(cp, f(r), r) && blendable(g[r]) by {
        lemma_has_root(cp, r);
    }
    assert forall|r1: int, r2: int| rg.contains(r1) && rg.contains(r2) && #[trigger] f(r1) == #[trigger] f(r2) implies r1 == r2 by {
        assert(rg.contains(r1) && rg.contains(r2));
        lemma_reaches_sym(cp, f(r1), r1);
        lemma_reaches_trans(cp, r1, f(r1), r2);
        lemma_uniform_reaches(cp, g, r1, r2);
        lemma_reaches_self(g, r2);
        lemma_root_unique(g, r1, r2, r2);
    }
    let y = rg.map(f);
    lemma_map_size(rg, y, f);
    assert(y.subset_of(rc));
    let missing: int = if exists|a: int| valid_cell(a) && blendable(cp[a]) && !#[trigger] blendable(g[a]) {
        let a = choose|a: int| valid_cell(a) && blendable(cp[a]) && !#[trigger] blendable(g[a]);
        lemma_has_root(cp, a);
        let rho = root_of(cp, a);
        if y.contains(rho) {
            let r = choose|r: int| rg.contains(r) && y.contains(rho) && rho == f(r);
            assert(rg.contains(r));
            lemma_reaches_sym(cp, rho, r);
            lemma_reaches_trans(cp, r, rho, a);
            lemma_uniform_reaches(cp, g, r, a);
        }
        rho
    } else {
        let (a, b) = choose|a: int, b: int| #[trigger] patch_step(g, a, b) && !reaches(cp, a, b);
        lemma_step_back(g, a, b);
        lemma_has_root(cp, a);
        lemma_has_root(cp, b);
        let ra = root_of(cp, a);
        let rb = root_of(cp, b);
        if ra == rb {
            lemma_reaches_sym(cp, ra, a);
            lemma_reaches_trans(cp, a, ra, b);
        }
        if y.contains(ra) && y.contains(rb) {
            let r1 = choose|r: int| rg.contains(r) && ra == f(r);
            let r2 = choose|r: int| rg.contains(r) && rb == f(r);
            assert(rg.contains(r1) && rg.contains(r2));
            lemma_reaches_sym(cp, ra, r1);
            lemma_reaches_trans(cp, r1, ra, a);
            lemma_uniform_reaches(cp, g, r1, a);
            lemma_reaches_sym(cp, rb, r2);
            lemma_reaches_trans(cp, r2, rb, b);
            lemma_uniform_reaches(cp, g, r2, b);
            lemma_reaches_self(g, a);
            lemma_reaches_step(g, a, a, b);
            lemma_reaches_trans(g, r1, a, b);
            lemma_root_unique(g, r1, r2, b);
        }
        if y.contains(ra) { rb } else { ra }
    };
    assert(rc.contains(missing) && !y.contains(missing));
    y.lemma_subset_not_in_lt(rc, missing);
}

} // verus!

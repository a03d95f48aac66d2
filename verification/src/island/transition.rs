//! Stage 5 of generation: composited transitions between the four logic
//! cells of each 64 px display block, and between neighbouring blocks of
//! different biomes.

use vstd::prelude::*;
use crate::island::types::{Biome, CellData, TerrainRole, SurfaceId, SurfaceTier, TransitionMask, TransitionSpec};
use crate::island::grid::{IslandGenGrid, CELL_COUNT, DISPLAY_GRID, valid_cell, in_grid, flat_index, col_of, row_of};
use crate::island::recipe::IslandGenRecipe;
use crate::island::surfaces::{
    spec_blend_group, blend_group, spec_slug_rank, slug_rank, lemma_slug_rank_injective, spec_surface_tier,
    surface_tier, spec_biome_ground_surface, biome_ground_surface,
};

verus! {

/// Registry entry of a synthesized transition between two land surfaces:
/// which tiles blend, with which mask, and the fallback priority used when a
/// base tile is missing.
#[derive(Clone, Copy, Debug, PartialEq, Eq, Structural)]
pub struct TransitionRule {
    pub from: SurfaceId,
    pub to: SurfaceId,
    pub mask: TransitionMask,
    pub fallback_priority: u8,
}

impl TransitionRule {
    /// The per-block transition of this rule with tile variant `variant`.
    pub fn into_spec(self, variant: u8) -> (r: TransitionSpec)
        ensures
            r == (TransitionSpec { base: self.from, overlay: self.to, mask: self.mask, variant }),
    {
        TransitionSpec { base: self.from, overlay: self.to, mask: self.mask, variant }
    }
}

/// Lower is preferred when a base tile is missing: ground beats accent.
pub open spec fn spec_fallback_priority(base: SurfaceId, overlay: SurfaceId) -> u8 {
    if spec_surface_tier(base) == SurfaceTier::Ground {
        0
    } else if spec_surface_tier(overlay) == SurfaceTier::Ground {
        1
    } else {
        2
    }
}

/// Fallback priority of a transition between `base` and `overlay`.
pub fn transition_fallback_priority(base: SurfaceId, overlay: SurfaceId) -> (r: u8)
    ensures
        r == spec_fallback_priority(base, overlay),
{
    match (surface_tier(base), surface_tier(overlay)) {
        (SurfaceTier::Ground, _) => 0,
        (_, SurfaceTier::Ground) => 1,
        _ => 2,
    }
}

/// Occurrences of `x` among the four values.
pub open spec fn count4(g: Seq<u8>, x: u8) -> int {
    (if g[0] == x { 1int } else { 0 }) + (if g[1] == x { 1int } else { 0 }) + (if g[2] == x { 1int } else { 0 })
        + (if g[3] == x { 1int } else { 0 })
}

fn count_in(groups: &[u8; 4], x: u8) -> (r: u8)
    ensures
        r == count4(groups@, x),
{
    let mut c: u8 = 0;
    if groups[0] == x { c = c + 1; }
    if groups[1] == x { c = c + 1; }
    if groups[2] == x { c = c + 1; }
    if groups[3] == x { c = c + 1; }
    c
}

/// `r` is the most frequent of the four groups, the smallest among equals.
pub open spec fn is_majority(g: Seq<u8>, r: u8) -> bool {
    &&& exists|i: int| 0 <= i < 4 && g[i] == r
    &&& forall|i: int| 0 <= i < 4 ==> count4(g, #[trigger] g[i]) < count4(g, r) || (count4(g, g[i]) == count4(g, r) && r <= g[i])
}

/// The most frequent group of a block, the smallest among equals.
pub fn majority_group(groups: &[u8; 4]) -> (r: u8)
    ensures
        is_majority(groups@, r),
{
    let mut best = groups[0];
    let mut best_count: u8 = 0;
    let mut i: usize = 0;
    while i < 4
        invariant
            i <= 4,
            i == 0 ==> best == groups@[0] && best_count == 0,
            i > 0 ==> best_count == count4(groups@, best) && exists|j: int| 0 <= j < i && groups@[j] == best,
            forall|j: int| 0 <= j < i ==> count4(groups@, #[trigger] groups@[j]) < best_count
                || (count4(groups@, groups@[j]) == best_count && best <= groups@[j]),
        decreases 4 - i,
    {
        let g = groups[i];
        let count = count_in(groups, g);
        if count > best_count || (count == best_count && g < best) {
            best_count = count;
            best = g;
        }
        i = i + 1;
    }
    best
}

/// `r` is the most frequent group other than `maj`, the smallest among equals;
/// `None` when every group is `maj`.
pub open spec fn is_minority(g: Seq<u8>, maj: u8, r: Option<u8>) -> bool {
    match r {
        None => forall|i: int| 0 <= i < 4 ==> #[trigger] g[i] == maj,
        Some(m) => {
            &&& m != maj
            &&& exists|i: int| 0 <= i < 4 && g[i] == m
            &&& forall|i: int| 0 <= i < 4 && #[trigger] g[i] != maj ==> count4(g, g[i]) < count4(g, m)
                || (count4(g, g[i]) == count4(g, m) && m <= g[i])
        },
    }
}

/// The most frequent group other than `maj`.
pub fn minority_group(groups: &[u8; 4], maj: u8) -> (r: Option<u8>)
    ensures
        is_minority(groups@, maj, r),
{
    let mut best: Option<u8> = None;
    let mut best_count: u8 = 0;
    let mut i: usize = 0;
    while i < 4
        invariant
            i <= 4,
            best is None ==> forall|j: int| 0 <= j < i ==> #[trigger] groups@[j] == maj,
            best matches Some(m) ==> m != maj && best_count == count4(groups@, m) && exists|j: int| 0 <= j < i && groups@[j] == m,
            best matches Some(m) ==> forall|j: int| 0 <= j < i && #[trigger] groups@[j] != maj ==> count4(groups@, groups@[j]) < best_count
                || (count4(groups@, groups@[j]) == best_count && m <= groups@[j]),
        decreases 4 - i,
    {
        let g = groups[i];
        if g != maj {
            let count = count_in(groups, g);
            let replace = match best {
                None => true,
                Some(b) => count > best_count || (count == best_count && g < b),
            };
            if replace {
                best_count = count;
                best = Some(g);
            }
        }
        i = i + 1;
    }
    best
}

/// Occurrences of surface `s` among the corners whose group is `group`.
pub open spec fn group_count(c: Seq<SurfaceId>, g: Seq<u8>, group: u8, s: SurfaceId) -> int {
    (if g[0] == group && c[0] == s { 1int } else { 0 }) + (if g[1] == group && c[1] == s { 1int } else { 0 })
        + (if g[2] == group && c[2] == s { 1int } else { 0 }) + (if g[3] == group && c[3] == s { 1int } else { 0 })
}

/// `r` is the most common surface among the corners of `group`, the one with
/// the greater slug among equals; the first corner when no corner is in the
/// group.
pub open spec fn is_representative(c: Seq<SurfaceId>, g: Seq<u8>, group: u8, r: SurfaceId) -> bool {
    if forall|i: int| 0 <= i < 4 ==> #[trigger] g[i] != group {
        r == c[0]
    } else {
        &&& exists|i: int| 0 <= i < 4 && g[i] == group && c[i] == r
        &&& forall|i: int| 0 <= i < 4 && #[trigger] g[i] == group ==> group_count(c, g, group, c[i]) < group_count(c, g, group, r)
            || (group_count(c, g, group, c[i]) == group_count(c, g, group, r) && spec_slug_rank(c[i]) <= spec_slug_rank(r))
    }
}

fn group_count_of(corners: &[SurfaceId; 4], groups: &[u8; 4], group: u8, s: SurfaceId) -> (r: u8)
    ensures
        r == group_count(corners@, groups@, group, s),
{
    let mut n: u8 = 0;
    if groups[0] == group && corners[0] == s { n = n + 1; }
    if groups[1] == group && corners[1] == s { n = n + 1; }
    if groups[2] == group && corners[2] == s { n = n + 1; }
    if groups[3] == group && corners[3] == s { n = n + 1; }
    n
}

/// Most common actual surface among the corners of `group`, ties broken by
/// the greater slug, so blends use real textures.
pub fn representative_surface(corners: &[SurfaceId; 4], groups: &[u8; 4], group: u8) -> (r: SurfaceId)
    ensures
        is_representative(corners@, groups@, group, r),
{
    let mut best: Option<(SurfaceId, u8)> = None;
    let mut i: usize = 0;
    while i < 4
        invariant
            i <= 4,
            best is None ==> forall|j: int| 0 <= j < i ==> #[trigger] groups@[j] != group,
            best matches Some(b) ==> b.1 == group_count(corners@, groups@, group, b.0) && exists|j: int|
                0 <= j < i && groups@[j] == group && corners@[j] == b.0,
            best matches Some(b) ==> forall|j: int| 0 <= j < i && #[trigger] groups@[j] == group ==> group_count(corners@, groups@, group, corners@[j]) < b.1
                || (group_count(corners@, groups@, group, corners@[j]) == b.1 && spec_slug_rank(corners@[j]) <= spec_slug_rank(b.0)),
        decreases 4 - i,
    {
        if groups[i] == group {
            let s = corners[i];
            let n = group_count_of(corners, groups, group, s);
            let replace = match best {
                None => true,
                Some(b) => n > b.1 || (n == b.1 && slug_rank(s) >= slug_rank(b.0)),
            };
            if replace {
                best = Some((s, n));
            }
        }
        i = i + 1;
    }
    match best {
        Some(b) => b.0,
        None => corners[0],
    }
}

/// Bit `b` of `m` is set.
pub open spec fn has_bit(m: u8, b: u8) -> bool {
    m & b != 0
}

/// Number of set bits of `m`.
pub open spec fn ones(m: u8) -> int {
    (if m & 1 != 0 { 1int } else { 0 }) + (if m & 2 != 0 { 1int } else { 0 }) + (if m & 4 != 0 { 1int } else { 0 })
        + (if m & 8 != 0 { 1int } else { 0 }) + (if m & 16 != 0 { 1int } else { 0 }) + (if m & 32 != 0 { 1int } else { 0 })
        + (if m & 64 != 0 { 1int } else { 0 }) + (if m & 128 != 0 { 1int } else { 0 })
}

/// Mask of a block whose overlay occupies the corners set in `minor` (bit 0
/// north-west, 1 north-east, 2 south-west, 3 south-east).
pub open spec fn spec_oriented_mask(minor: u8, in_seam: bool) -> TransitionMask {
    let nw = has_bit(minor, 1);
    let ne = has_bit(minor, 2);
    let sw = has_bit(minor, 4);
    let se = has_bit(minor, 8);
    let count = ones(minor);
    if in_seam && count <= 2 {
        TransitionMask::OrganicBlob
    } else if count == 1 {
        if nw {
            TransitionMask::CornerNw
        } else if ne {
            TransitionMask::CornerNe
        } else if sw {
            TransitionMask::CornerSw
        } else {
            TransitionMask::CornerSe
        }
    } else if (ne || se) && !(nw || sw) {
        TransitionMask::VerticalRough
    } else if (nw || sw) && !(ne || se) {
        TransitionMask::VerticalRoughLeft
    } else if (sw || se) && !(nw || ne) {
        TransitionMask::HorizontalRough
    } else if (nw || ne) && !(sw || se) {
        TransitionMask::HorizontalRoughTop
    } else if nw && se && !ne && !sw {
        TransitionMask::DiagonalNw
    } else if ne && sw && !nw && !se {
        TransitionMask::DiagonalNe
    } else if in_seam {
        TransitionMask::OrganicBlob
    } else {
        TransitionMask::SquiggleA
    }
}

fn bit_count(m: u8) -> (r: u8)
    ensures
        r == ones(m),
{
    let mut n: u8 = 0;
    if m & 1 != 0 { n = n + 1; }
    if m & 2 != 0 { n = n + 1; }
    if m & 4 != 0 { n = n + 1; }
    if m & 8 != 0 { n = n + 1; }
    if m & 16 != 0 { n = n + 1; }
    if m & 32 != 0 { n = n + 1; }
    if m & 64 != 0 { n = n + 1; }
    if m & 128 != 0 { n = n + 1; }
    n
}

/// Orientation of the blend mask from the overlay corners.
pub fn oriented_biome_mask(minor: u8, in_seam: bool) -> (r: TransitionMask)
    ensures
        r == spec_oriented_mask(minor, in_seam),
{
    let count = bit_count(minor);
    if in_seam && count <= 2 {
        return TransitionMask::OrganicBlob;
    }
    let nw = minor & 1 != 0;
    let ne = minor & 2 != 0;
    let sw = minor & 4 != 0;
    let se = minor & 8 != 0;
    if count == 1 {
        return if nw {
            TransitionMask::CornerNw
        } else if ne {
            TransitionMask::CornerNe
        } else if sw {
            TransitionMask::CornerSw
        } else {
            TransitionMask::CornerSe
        };
    }
    if (ne || se) && !(nw || sw) {
        return TransitionMask::VerticalRough;
    }
    if (nw || sw) && !(ne || se) {
        return TransitionMask::VerticalRoughLeft;
    }
    if (sw || se) && !(nw || ne) {
        return TransitionMask::HorizontalRough;
    }
    if (nw || ne) && !(sw || se) {
        return TransitionMask::HorizontalRoughTop;
    }
    if nw && se && !ne && !sw {
        return TransitionMask::DiagonalNw;
    }
    if ne && sw && !nw && !se {
        return TransitionMask::DiagonalNe;
    }
    if in_seam {
        TransitionMask::OrganicBlob
    } else {
        TransitionMask::SquiggleA
    }
}

/// Bit mask of the corners whose group is `m`.
pub open spec fn group_bits(g: Seq<u8>, m: u8) -> u8 {
    ((if g[0] == m { 1int } else { 0 }) + (if g[1] == m { 2int } else { 0 }) + (if g[2] == m { 4int } else { 0 })
        + (if g[3] == m { 8int } else { 0 })) as u8
}

/// The four blend groups of a block's corners.
pub open spec fn groups_of(c: Seq<SurfaceId>) -> Seq<u8> {
    seq![spec_blend_group(c[0]), spec_blend_group(c[1]), spec_blend_group(c[2]), spec_blend_group(c[3])]
}

/// Transition of a 2x2 block with corner surfaces `c`: `None` when all corners
/// share one blend group; otherwise the majority group's representative
/// blended under the minority group's, with a mask oriented by the minority
/// corners.
pub open spec fn spec_resolve_transition(c: Seq<SurfaceId>, in_seam: bool, variant: u8) -> Option<TransitionSpec> {
    let g = groups_of(c);
    if g[0] == g[1] && g[0] == g[2] && g[0] == g[3] {
        None
    } else {
        let maj = choose|m: u8| is_majority(g, m);
        let min = choose|m: u8| is_minority(g, maj, Some(m));
        let base = choose|s: SurfaceId| is_representative(c, g, maj, s);
        let overlay = choose|s: SurfaceId| is_representative(c, g, min, s);
        if base == overlay {
            None
        } else {
            Some(TransitionSpec { base, overlay, mask: spec_oriented_mask(group_bits(g, min), in_seam), variant })
        }
    }
}

proof fn lemma_majority_unique(g: Seq<u8>, a: u8, b: u8)
    requires
        g.len() == 4,
        is_majority(g, a),
        is_majority(g, b),
    ensures
        a == b,
{
    let i = choose|i: int| 0 <= i < 4 && g[i] == a;
    let j = choose|j: int| 0 <= j < 4 && g[j] == b;
    assert(count4(g, g[i]) == count4(g, a));
    assert(count4(g, g[j]) == count4(g, b));
}

proof fn lemma_minority_unique(g: Seq<u8>, maj: u8, a: u8, b: u8)
    requires
        g.len() == 4,
        is_minority(g, maj, Some(a)),
        is_minority(g, maj, Some(b)),
    ensures
        a == b,
{
    let i = choose|i: int| 0 <= i < 4 && g[i] == a;
    let j = choose|j: int| 0 <= j < 4 && g[j] == b;
    assert(g[i] != maj);
    assert(g[j] != maj);
}

proof fn lemma_representative_unique(c: Seq<SurfaceId>, g: Seq<u8>, group: u8, a: SurfaceId, b: SurfaceId)
    requires
        c.len() == 4,
        g.len() == 4,
        is_representative(c, g, group, a),
        is_representative(c, g, group, b),
    ensures
        a == b,
{
    if !(forall|i: int| 0 <= i < 4 ==> #[trigger] g[i] != group) {
        let i = choose|i: int| 0 <= i < 4 && g[i] == group && c[i] == a;
        let j = choose|j: int| 0 <= j < 4 && g[j] == group && c[j] == b;
        assert(g[i] == group);
        assert(g[j] == group);
        lemma_slug_rank_injective(a);
        lemma_slug_rank_injective(b);
    }
}

/// Resolve the transition of a 2x2 display block from its corner surfaces.
pub fn resolve_transition(corners: [SurfaceId; 4], in_seam: bool, variant: u8) -> (r: Option<TransitionSpec>)
    ensures
        r == spec_resolve_transition(corners@, in_seam, variant),
{
    let groups: [u8; 4] = [blend_group(corners[0]), blend_group(corners[1]), blend_group(corners[2]), blend_group(corners[3])];
    let ghost g = groups_of(corners@);
    assert(groups@ =~= g);
    if groups[0] == groups[1] && groups[0] == groups[2] && groups[0] == groups[3] {
        return None;
    }
    let maj_group = majority_group(&groups);
    let min_group = match minority_group(&groups, maj_group) {
        Some(m) => m,
        None => {
            assert(false);
            return None;
        },
    };
    let base = representative_surface(&corners, &groups, maj_group);
    let overlay = representative_surface(&corners, &groups, min_group);
    proof {
        let maj = choose|m: u8| is_majority(g, m);
        lemma_majority_unique(g, maj, maj_group);
        let min = choose|m: u8| is_minority(g, maj, Some(m));
        lemma_minority_unique(g, maj, min, min_group);
        let b = choose|s: SurfaceId| is_representative(corners@, g, maj, s);
        lemma_representative_unique(corners@, g, maj, b, base);
        let o = choose|s: SurfaceId| is_representative(corners@, g, min, s);
        lemma_representative_unique(corners@, g, min, o, overlay);
    }
    if base == overlay {
        return None;
    }
    let mut overlay_mask: u8 = 0;
    if groups[0] == min_group { overlay_mask = overlay_mask + 1; }
    if groups[1] == min_group { overlay_mask = overlay_mask + 2; }
    if groups[2] == min_group { overlay_mask = overlay_mask + 4; }
    if groups[3] == min_group { overlay_mask = overlay_mask + 8; }
    let mask = oriented_biome_mask(overlay_mask, in_seam);
    let rule = TransitionRule { from: base, to: overlay, mask, fallback_priority: transition_fallback_priority(base, overlay) };
    Some(rule.into_spec(variant))
}

/// The corners (bit 0 north-west, 1 north-east, 2 south-west, 3 south-east)
/// that a corner, half or diagonal mask lays the overlay over; `None` for the
/// masks that follow no corners.
pub open spec fn mask_overlay_corners(m: TransitionMask) -> Option<u8> {
    match m {
        TransitionMask::CornerNw => Some(1u8),
        TransitionMask::CornerNe => Some(2u8),
        TransitionMask::CornerSw => Some(4u8),
        TransitionMask::CornerSe => Some(8u8),
        TransitionMask::HorizontalRoughTop => Some(3u8),
        TransitionMask::VerticalRoughLeft => Some(5u8),
        TransitionMask::VerticalRough => Some(10u8),
        TransitionMask::HorizontalRough => Some(12u8),
        TransitionMask::DiagonalNw => Some(9u8),
        TransitionMask::DiagonalNe => Some(6u8),
        _ => None,
    }
}

/// The mask of a block of corners `c` (in north-west, north-east,
/// south-west, south-east order) with corner `k` alone in its blend group.
pub open spec fn corner_mask(k: int) -> TransitionMask {
    if k == 0 {
        TransitionMask::CornerNw
    } else if k == 1 {
        TransitionMask::CornerNe
    } else if k == 2 {
        TransitionMask::CornerSw
    } else {
        TransitionMask::CornerSe
    }
}

proof fn lemma_low_bits(m: u8)
    requires
        m < 16,
    ensures
        has_bit(m, 1) == (m % 2 == 1),
        has_bit(m, 2) == ((m / 2) % 2 == 1),
        has_bit(m, 4) == ((m / 4) % 2 == 1),
        has_bit(m, 8) == (m / 8 == 1),
        ones(m) == m % 2 + (m / 2) % 2 + (m / 4) % 2 + m / 8,
{
    assert(m < 16 ==> ((m & 1 != 0) == (m % 2 == 1) && (m & 2 != 0) == ((m / 2) % 2 == 1) && (m & 4 != 0) == ((m / 4) % 2 == 1)
        && (m & 8 != 0) == (m / 8 == 1) && m & 16 == 0 && m & 32 == 0 && m & 64 == 0 && m & 128 == 0)) by (bit_vector);
}

/// A block's mask lays the overlay over exactly the minority corners
/// `minor`: whenever it follows corners, they are those of `minor`, and
/// outside a seam it does for every one or two minority corners.
pub proof fn law_mask_follows_minority(minor: u8, in_seam: bool)
    requires
        0 < minor < 16,
    ensures
        mask_overlay_corners(spec_oriented_mask(minor, in_seam)) is Some ==> mask_overlay_corners(spec_oriented_mask(minor, in_seam)) == Some(minor),
        !in_seam && ones(minor) <= 2 ==> mask_overlay_corners(spec_oriented_mask(minor, in_seam)) == Some(minor),
{
    lemma_low_bits(minor);
}

/// Ordering key of corner `i` when choosing a group's representative.
spec fn rep_key(c: Seq<SurfaceId>, g: Seq<u8>, group: u8, i: int) -> int {
    if g[i] == group { group_count(c, g, group, c[i]) * 100 + spec_slug_rank(c[i]) } else { -1 }
}

/// Every group of a block has a representative surface.
proof fn lemma_representative_exists(c: Seq<SurfaceId>, g: Seq<u8>, group: u8)
    requires
        c.len() == 4,
        g.len() == 4,
    ensures
        exists|s: SurfaceId| is_representative(c, g, group, s),
{
    if forall|i: int| 0 <= i < 4 ==> #[trigger] g[i] != group {
        assert(is_representative(c, g, group, c[0]));
    } else {
        let m01: int = if rep_key(c, g, group, 0) >= rep_key(c, g, group, 1) { 0 } else { 1 };
        let m23: int = if rep_key(c, g, group, 2) >= rep_key(c, g, group, 3) { 2 } else { 3 };
        let b: int = if rep_key(c, g, group, m01) >= rep_key(c, g, group, m23) { m01 } else { m23 };
        assert forall|i: int| 0 <= i < 4 implies rep_key(c, g, group, i) <= rep_key(c, g, group, b) by {}
        let w = choose|i: int| 0 <= i < 4 && g[i] == group;
        assert(rep_key(c, g, group, w) >= 0);
        assert(g[b] == group);
        assert forall|i: int| 0 <= i < 4 && #[trigger] g[i] == group implies group_count(c, g, group, c[i]) < group_count(c, g, group, c[b])
            || (group_count(c, g, group, c[i]) == group_count(c, g, group, c[b]) && spec_slug_rank(c[i]) <= spec_slug_rank(c[b])) by {
            assert(rep_key(c, g, group, i) <= rep_key(c, g, group, b));
        }
        assert(is_representative(c, g, group, c[b]));
    }
}

/// A block with one corner alone in its blend group blends that corner's
/// surface over the others, with the mask of that very corner (outside a
/// seam).
pub proof fn law_lone_corner_transition(c: Seq<SurfaceId>, k: int, variant: u8)
    requires
        c.len() == 4,
        0 <= k < 4,
        forall|i: int, j: int| 0 <= i < 4 && 0 <= j < 4 && i != k && j != k ==> spec_blend_group(c[i]) == spec_blend_group(c[j]),
        forall|i: int| 0 <= i < 4 && i != k ==> spec_blend_group(c[i]) != spec_blend_group(c[k]),
    ensures
        spec_resolve_transition(c, false, variant) is Some,
        spec_resolve_transition(c, false, variant)->0.overlay == c[k],
        spec_resolve_transition(c, false, variant)->0.mask == corner_mask(k),
        mask_overlay_corners(spec_resolve_transition(c, false, variant)->0.mask) == Some(if k == 0 { 1u8 } else if k == 1 { 2u8 } else if k == 2 { 4u8 } else { 8u8 }),
{
    let g = groups_of(c);
    let o = if k == 0 { 1int } else { 0 };
    let gm = g[o];
    let gk = g[k];
    assert(count4(g, gm) == 3 && count4(g, gk) == 1);
    assert(is_majority(g, gm));
    let maj = choose|m: u8| is_majority(g, m);
    lemma_majority_unique(g, maj, gm);
    assert(is_minority(g, gm, Some(gk)));
    let min = choose|m: u8| is_minority(g, maj, Some(m));
    lemma_minority_unique(g, maj, min, gk);
    assert(is_representative(c, g, gk, c[k])) by {
        assert(group_count(c, g, gk, c[k]) >= 1);
    }
    let ov = choose|s: SurfaceId| is_representative(c, g, gk, s);
    assert(ov == c[k]) by {
        let i = choose|i: int| 0 <= i < 4 && g[i] == gk && c[i] == ov;
        assert(i == k);
    }
    lemma_representative_exists(c, g, gm);
    let b = choose|s: SurfaceId| is_representative(c, g, gm, s);
    assert(b != ov) by {
        assert(spec_blend_group(c[o]) != spec_blend_group(c[k]));
        assert(g[o] == gm);
        assert(is_representative(c, g, gm, b));
        assert(!(forall|i: int| 0 <= i < 4 ==> #[trigger] g[i] != gm));
        let i = choose|i: int| 0 <= i < 4 && g[i] == gm && c[i] == b;
        assert(g[i] != g[k]);
    }
    let bits = group_bits(g, gk);
    assert(bits == (if k == 0 { 1u8 } else if k == 1 { 2u8 } else if k == 2 { 4u8 } else { 8u8 }));
    lemma_low_bits(bits);
}

/// The corners of a block whose surface shares the blend group of `s`.
pub open spec fn corners_in_group_of(c: Seq<SurfaceId>, s: SurfaceId) -> u8 {
    ((if spec_blend_group(c[0]) == spec_blend_group(s) { 1int } else { 0 })
        + (if spec_blend_group(c[1]) == spec_blend_group(s) { 2int } else { 0 })
        + (if spec_blend_group(c[2]) == spec_blend_group(s) { 4int } else { 0 })
        + (if spec_blend_group(c[3]) == spec_blend_group(s) { 8int } else { 0 })) as u8
}

/// Whenever a block's transition mask follows corners, they are exactly the
/// corners of the overlay's blend group; the overlay and the base come from
/// different blend groups, the base's covering at least as many corners.
pub proof fn law_transition_mask_covers_overlay(c: Seq<SurfaceId>, in_seam: bool, variant: u8)
    requires
        c.len() == 4,
    ensures
        spec_resolve_transition(c, in_seam, variant) matches Some(t) ==> {
            &&& spec_blend_group(t.base) != spec_blend_group(t.overlay)
            &&& (mask_overlay_corners(t.mask) is Some ==> mask_overlay_corners(t.mask) == Some(corners_in_group_of(c, t.overlay)))
            &&& t.variant == variant
        },
{
    let g = groups_of(c);
    if spec_resolve_transition(c, in_seam, variant) is Some {
        let maj = choose|m: u8| is_majority(g, m);
        let min = choose|m: u8| is_minority(g, maj, Some(m));
        let base = choose|s: SurfaceId| is_representative(c, g, maj, s);
        let overlay = choose|s: SurfaceId| is_representative(c, g, min, s);
        assert(!(g[0] == g[1] && g[0] == g[2] && g[0] == g[3]));
        assert(exists|m: u8| is_majority(g, m)) by {
            let a01: u8 = if count4(g, g[0]) > count4(g, g[1]) || (count4(g, g[0]) == count4(g, g[1]) && g[0] <= g[1]) { g[0] } else { g[1] };
            let a23: u8 = if count4(g, g[2]) > count4(g, g[3]) || (count4(g, g[2]) == count4(g, g[3]) && g[2] <= g[3]) { g[2] } else { g[3] };
            let b: u8 = if count4(g, a01) > count4(g, a23) || (count4(g, a01) == count4(g, a23) && a01 <= a23) { a01 } else { a23 };
            assert(is_majority(g, b));
        }
        assert(exists|m: u8| is_minority(g, maj, Some(m))) by {
            let k = choose|k: int| 0 <= k < 4 && g[k] != maj;
            let e0: u8 = if g[0] != maj { g[0] } else { g[k] };
            let e1: u8 = if g[1] != maj && (count4(g, g[1]) > count4(g, e0) || (count4(g, g[1]) == count4(g, e0) && g[1] <= e0)) { g[1] } else { e0 };
            let e2: u8 = if g[2] != maj && (count4(g, g[2]) > count4(g, e1) || (count4(g, g[2]) == count4(g, e1) && g[2] <= e1)) { g[2] } else { e1 };
            let e3: u8 = if g[3] != maj && (count4(g, g[3]) > count4(g, e2) || (count4(g, g[3]) == count4(g, e2) && g[3] <= e2)) { g[3] } else { e2 };
            assert(is_minority(g, maj, Some(e3)));
        }
        lemma_representative_exists(c, g, maj);
        lemma_representative_exists(c, g, min);
        assert(spec_blend_group(overlay) == min) by {
            let i = choose|i: int| 0 <= i < 4 && g[i] == min;
            assert(!(forall|j: int| 0 <= j < 4 ==> #[trigger] g[j] != min));
            let j = choose|j: int| 0 <= j < 4 && g[j] == min && c[j] == overlay;
        }
        assert(spec_blend_group(base) == maj) by {
            let i = choose|i: int| 0 <= i < 4 && g[i] == maj;
            assert(!(forall|j: int| 0 <= j < 4 ==> #[trigger] g[j] != maj));
            let j = choose|j: int| 0 <= j < 4 && g[j] == maj && c[j] == base;
        }
        let bits = group_bits(g, min);
        assert(bits == corners_in_group_of(c, overlay));
        assert(0 < bits < 16) by {
            let i = choose|i: int| 0 <= i < 4 && g[i] == min;
        }
        law_mask_follows_minority(bits, in_seam);
    }
}

/// What a display block reads from one logic cell.
#[derive(Clone, Copy, Debug, PartialEq, Eq, Structural)]
pub struct DisplayQuad {
    pub surface: SurfaceId,
    pub biome: Option<Biome>,
    pub role: TerrainRole,
}

/// Column offset of quad `k` (north-west, north-east, south-west, south-east).
pub open spec fn quad_dc(k: int) -> int {
    if k == 1 || k == 3 { 1 } else { 0 }
}

/// Row offset of quad `k`.
pub open spec fn quad_dr(k: int) -> int {
    if k >= 2 { 1 } else { 0 }
}

/// Quad `k` of display block `(mc, mr)`: the cell's data on the grid, deep
/// ocean off it.
pub open spec fn quad_at(cells: Seq<CellData>, mc: int, mr: int, k: int) -> DisplayQuad {
    let col = mc * 2 + quad_dc(k);
    let row = mr * 2 + quad_dr(k);
    if in_grid(col, row) {
        let c = cells[flat_index(col, row)];
        DisplayQuad { surface: c.surface, biome: c.biome, role: c.role }
    } else {
        DisplayQuad { surface: SurfaceId::OceanDeep, biome: None, role: TerrainRole::OceanDeep }
    }
}

/// Display block coordinates whose cell coordinates fit an `i32`.
pub open spec fn macro_in_range(mc: int, mr: int) -> bool {
    -1073741824 <= mc <= 1073741823 && -1073741824 <= mr <= 1073741823
}

/// The four quads of a display block.
pub fn sample_display_quads(grid: &IslandGenGrid, macro_col: i32, macro_row: i32) -> (r: [DisplayQuad; 4])
    requires
        grid.wf(),
        macro_in_range(macro_col as int, macro_row as int),
    ensures
        forall|k: int| 0 <= k < 4 ==> #[trigger] r@[k] == quad_at(grid.cells@, macro_col as int, macro_row as int, k),
{
    let mut out = [DisplayQuad { surface: SurfaceId::OceanDeep, biome: None, role: TerrainRole::OceanDeep }; 4];
    let mut k: usize = 0;
    while k < 4
        invariant
            k <= 4,
            grid.wf(),
            macro_in_range(macro_col as int, macro_row as int),
            forall|j: int| 0 <= j < k ==> #[trigger] out@[j] == quad_at(grid.cells@, macro_col as int, macro_row as int, j),
            forall|j: int| k <= j < 4 ==> #[trigger] out@[j] == (DisplayQuad { surface: SurfaceId::OceanDeep, biome: None, role: TerrainRole::OceanDeep }),
        decreases 4 - k,
    {
        let dc: i32 = if k == 1 || k == 3 { 1 } else { 0 };
        let dr: i32 = if k >= 2 { 1 } else { 0 };
        if let Some(cell) = grid.cell(macro_col * 2 + dc, macro_row * 2 + dr) {
            out[k] = DisplayQuad { surface: cell.surface, biome: cell.biome, role: cell.role };
        }
        k = k + 1;
    }
    out
}

/// The four corner surfaces of a display block.
pub fn sample_display_block(grid: &IslandGenGrid, macro_col: i32, macro_row: i32) -> (r: [SurfaceId; 4])
    requires
        grid.wf(),
        macro_in_range(macro_col as int, macro_row as int),
    ensures
        forall|k: int| 0 <= k < 4 ==> #[trigger] r@[k] == quad_at(grid.cells@, macro_col as int, macro_row as int, k).surface,
{
    let q = sample_display_quads(grid, macro_col, macro_row);
    [q[0].surface, q[1].surface, q[2].surface, q[3].surface]
}

/// Some quad is ocean or beach.
pub open spec fn touches_coast(q: Seq<DisplayQuad>) -> bool {
    exists|k: int| 0 <= k < 4 && ((#[trigger] q[k]).role.ocean() || q[k].role.beach())
}

/// Coast and ocean borders stay as plain tiles.
pub fn block_touches_coast(quads: &[DisplayQuad; 4]) -> (r: bool)
    ensures
        r == (exists|k: int| 0 <= k < 4 && ((#[trigger] quads@[k]).role.ocean() || quads@[k].role.beach())),
{
    let mut k: usize = 0;
    while k < 4
        invariant
            k <= 4,
            forall|j: int| 0 <= j < k ==> !((#[trigger] quads@[j]).role.ocean() || quads@[j].role.beach()),
        decreases 4 - k,
    {
        if quads[k].role.is_ocean() || quads[k].role.is_beach() {
            return true;
        }
        k = k + 1;
    }
    false
}

/// Some cell of the display block is land.
pub open spec fn block_has_land(cells: Seq<CellData>, mc: int, mr: int) -> bool {
    exists|k: int| 0 <= k < 4 && (#[trigger] quad_at(cells, mc, mr, k)).role.land()
}

/// Whether some cell of the display block is land.
pub fn display_block_has_land(grid: &IslandGenGrid, macro_col: i32, macro_row: i32) -> (r: bool)
    requires
        grid.wf(),
        macro_in_range(macro_col as int, macro_row as int),
    ensures
        r == block_has_land(grid.cells@, macro_col as int, macro_row as int),
{
    let q = sample_display_quads(grid, macro_col, macro_row);
    let mut k: usize = 0;
    while k < 4
        invariant
            k <= 4,
            forall|j: int| 0 <= j < 4 ==> #[trigger] q@[j] == quad_at(grid.cells@, macro_col as int, macro_row as int, j),
            forall|j: int| 0 <= j < k ==> !(#[trigger] quad_at(grid.cells@, macro_col as int, macro_row as int, j)).role.land(),
        decreases 4 - k,
    {
        if q[k].role.is_land() {
            assert(quad_at(grid.cells@, macro_col as int, macro_row as int, k as int).role.land());
            return true;
        }
        k = k + 1;
    }
    false
}

/// What the biome-region stage shows for a display block.
#[derive(Clone, Copy, Debug, PartialEq, Eq, Structural)]
pub enum BiomeStageView {
    /// Some cell of the block is beach.
    Beach,
    /// The biome most of the block's cells carry.
    Region(Biome),
    /// No cell of the block carries a biome.
    Unassigned,
}

/// Quads of biome `b`, whatever their role.
pub open spec fn stage_votes(q: Seq<DisplayQuad>, b: Biome) -> int {
    (if q[0].biome == Some(b) { 1int } else { 0 }) + (if q[1].biome == Some(b) { 1int } else { 0 })
        + (if q[2].biome == Some(b) { 1int } else { 0 }) + (if q[3].biome == Some(b) { 1int } else { 0 })
}

/// Beach when any quad is beach; else the biome of most quads, earlier
/// biomes (Haunted, Volcanic, Cliff) winning ties; else unassigned.
pub open spec fn spec_biome_stage_view(q: Seq<DisplayQuad>) -> BiomeStageView {
    let h = stage_votes(q, Biome::Haunted);
    let v = stage_votes(q, Biome::Volcanic);
    let c = stage_votes(q, Biome::Cliff);
    if exists|k: int| 0 <= k < 4 && (#[trigger] q[k]).role.beach() {
        BiomeStageView::Beach
    } else if h == 0 && v == 0 && c == 0 {
        BiomeStageView::Unassigned
    } else if h >= v && h >= c {
        BiomeStageView::Region(Biome::Haunted)
    } else if v >= c {
        BiomeStageView::Region(Biome::Volcanic)
    } else {
        BiomeStageView::Region(Biome::Cliff)
    }
}

/// What the biome-region stage shows for a block.
pub fn biome_stage_view(quads: &[DisplayQuad; 4]) -> (r: BiomeStageView)
    ensures
        r == spec_biome_stage_view(quads@),
{
    let mut counts: [u8; 3] = [0, 0, 0];
    let mut beach = false;
    let mut k: usize = 0;
    while k < 4
        invariant
            k <= 4,
            beach == exists|j: int| 0 <= j < k && (#[trigger] quads@[j]).role.beach(),
            counts@[0] == (if k > 0 && quads@[0].biome == Some(Biome::Haunted) { 1int } else { 0 })
                + (if k > 1 && quads@[1].biome == Some(Biome::Haunted) { 1int } else { 0 })
                + (if k > 2 && quads@[2].biome == Some(Biome::Haunted) { 1int } else { 0 })
                + (if k > 3 && quads@[3].biome == Some(Biome::Haunted) { 1int } else { 0 }),
            counts@[1] == (if k > 0 && quads@[0].biome == Some(Biome::Volcanic) { 1int } else { 0 })
                + (if k > 1 && quads@[1].biome == Some(Biome::Volcanic) { 1int } else { 0 })
                + (if k > 2 && quads@[2].biome == Some(Biome::Volcanic) { 1int } else { 0 })
                + (if k > 3 && quads@[3].biome == Some(Biome::Volcanic) { 1int } else { 0 }),
            counts@[2] == (if k > 0 && quads@[0].biome == Some(Biome::Cliff) { 1int } else { 0 })
                + (if k > 1 && quads@[1].biome == Some(Biome::Cliff) { 1int } else { 0 })
                + (if k > 2 && quads@[2].biome == Some(Biome::Cliff) { 1int } else { 0 })
                + (if k > 3 && quads@[3].biome == Some(Biome::Cliff) { 1int } else { 0 }),
        decreases 4 - k,
    {
        if quads[k].role.is_beach() {
            beach = true;
        }
        match quads[k].biome {
            Some(Biome::Haunted) => counts[0] = counts[0] + 1,
            Some(Biome::Volcanic) => counts[1] = counts[1] + 1,
            Some(Biome::Cliff) => counts[2] = counts[2] + 1,
            None => {},
        }
        k = k + 1;
    }
    if beach {
        return BiomeStageView::Beach;
    }
    let mut best: u8 = 0;
    let mut view = BiomeStageView::Unassigned;
    if counts[0] > best {
        best = counts[0];
        view = BiomeStageView::Region(Biome::Haunted);
    }
    if counts[1] > best {
        best = counts[1];
        view = BiomeStageView::Region(Biome::Volcanic);
    }
    if counts[2] > best {
        view = BiomeStageView::Region(Biome::Cliff);
    }
    view
}

/// Land quads of biome `b`.
pub open spec fn biome_votes(q: Seq<DisplayQuad>, b: Biome) -> int {
    (if q[0].role.land() && q[0].biome == Some(b) { 1int } else { 0 })
        + (if q[1].role.land() && q[1].biome == Some(b) { 1int } else { 0 })
        + (if q[2].role.land() && q[2].biome == Some(b) { 1int } else { 0 })
        + (if q[3].role.land() && q[3].biome == Some(b) { 1int } else { 0 })
}

/// The biome of most land quads, earlier biomes (Haunted, Volcanic, Cliff)
/// winning ties; `None` when no land quad has a biome.
pub open spec fn spec_dominant_block_biome(q: Seq<DisplayQuad>) -> Option<Biome> {
    let h = biome_votes(q, Biome::Haunted);
    let v = biome_votes(q, Biome::Volcanic);
    let c = biome_votes(q, Biome::Cliff);
    if h == 0 && v == 0 && c == 0 {
        None
    } else if h >= v && h >= c {
        Some(Biome::Haunted)
    } else if v >= c {
        Some(Biome::Volcanic)
    } else {
        Some(Biome::Cliff)
    }
}

/// The dominant land biome of a block.
pub fn dominant_block_biome(quads: &[DisplayQuad; 4]) -> (r: Option<Biome>)
    ensures
        r == spec_dominant_block_biome(quads@),
{
    let mut h: u8 = 0;
    let mut v: u8 = 0;
    let mut c: u8 = 0;
    let mut k: usize = 0;
    while k < 4
        invariant
            k <= 4,
            h == (if k > 0 && quads@[0].role.land() && quads@[0].biome == Some(Biome::Haunted) { 1int } else { 0 })
                + (if k > 1 && quads@[1].role.land() && quads@[1].biome == Some(Biome::Haunted) { 1int } else { 0 })
                + (if k > 2 && quads@[2].role.land() && quads@[2].biome == Some(Biome::Haunted) { 1int } else { 0 })
                + (if k > 3 && quads@[3].role.land() && quads@[3].biome == Some(Biome::Haunted) { 1int } else { 0 }),
            v == (if k > 0 && quads@[0].role.land() && quads@[0].biome == Some(Biome::Volcanic) { 1int } else { 0 })
                + (if k > 1 && quads@[1].role.land() && quads@[1].biome == Some(Biome::Volcanic) { 1int } else { 0 })
                + (if k > 2 && quads@[2].role.land() && quads@[2].biome == Some(Biome::Volcanic) { 1int } else { 0 })
                + (if k > 3 && quads@[3].role.land() && quads@[3].biome == Some(Biome::Volcanic) { 1int } else { 0 }),
            c == (if k > 0 && quads@[0].role.land() && quads@[0].biome == Some(Biome::Cliff) { 1int } else { 0 })
                + (if k > 1 && quads@[1].role.land() && quads@[1].biome == Some(Biome::Cliff) { 1int } else { 0 })
                + (if k > 2 && quads@[2].role.land() && quads@[2].biome == Some(Biome::Cliff) { 1int } else { 0 })
                + (if k > 3 && quads@[3].role.land() && quads@[3].biome == Some(Biome::Cliff) { 1int } else { 0 }),
        decreases 4 - k,
    {
        let q = quads[k];
        if q.role.is_land() {
            match q.biome {
                Some(Biome::Haunted) => { h = h + 1; },
                Some(Biome::Volcanic) => { v = v + 1; },
                Some(Biome::Cliff) => { c = c + 1; },
                None => {},
            }
        }
        k = k + 1;
    }
    let mut best: u8 = 0;
    let mut biome: Option<Biome> = None;
    if h > best {
        best = h;
        biome = Some(Biome::Haunted);
    }
    if v > best {
        best = v;
        biome = Some(Biome::Volcanic);
    }
    if c > best {
        biome = Some(Biome::Cliff);
    }
    biome
}

/// The quads of block `(mc, mr)` as a sequence.
pub open spec fn quads_of(cells: Seq<CellData>, mc: int, mr: int) -> Seq<DisplayQuad> {
    seq![quad_at(cells, mc, mr, 0), quad_at(cells, mc, mr, 1), quad_at(cells, mc, mr, 2), quad_at(cells, mc, mr, 3)]
}

/// The across-block biome transition of block `(mc, mr)`: a rough vertical
/// seam toward an eastern block of another dominant biome, else a rough
/// horizontal seam toward such a southern block.
pub open spec fn spec_macro_neighbor_transition(cells: Seq<CellData>, mc: int, mr: int, variant: u8) -> Option<TransitionSpec> {
    let here = quads_of(cells, mc, mr);
    if touches_coast(here) || spec_dominant_block_biome(here) is None {
        None
    } else {
        let hb = spec_dominant_block_biome(here)->0;
        let east = quads_of(cells, mc + 1, mr);
        let south = quads_of(cells, mc, mr + 1);
        if mc + 1 < 156 && block_has_land(cells, mc + 1, mr) && !touches_coast(east)
            && spec_dominant_block_biome(east) is Some && spec_dominant_block_biome(east)->0 != hb {
            Some(TransitionSpec {
                base: spec_biome_ground_surface(hb),
                overlay: spec_biome_ground_surface(spec_dominant_block_biome(east)->0),
                mask: TransitionMask::VerticalRough,
                variant,
            })
        } else if mr + 1 < 156 && block_has_land(cells, mc, mr + 1) && !touches_coast(south)
            && spec_dominant_block_biome(south) is Some && spec_dominant_block_biome(south)->0 != hb {
            Some(TransitionSpec {
                base: spec_biome_ground_surface(hb),
                overlay: spec_biome_ground_surface(spec_dominant_block_biome(south)->0),
                mask: TransitionMask::HorizontalRough,
                variant,
            })
        } else {
            None
        }
    }
}

proof fn lemma_quads_seq(q: [DisplayQuad; 4], cells: Seq<CellData>, mc: int, mr: int)
    requires
        forall|k: int| 0 <= k < 4 ==> #[trigger] q@[k] == quad_at(cells, mc, mr, k),
    ensures
        q@ =~= quads_of(cells, mc, mr),
{
    assert(q@.len() == 4);
}

/// The across-block biome transition of a block.
pub fn macro_neighbor_biome_transition(grid: &IslandGenGrid, macro_col: i32, macro_row: i32, variant: u8) -> (r: Option<TransitionSpec>)
    requires
        grid.wf(),
        macro_in_range(macro_col as int, macro_row as int),
        macro_in_range(macro_col as int + 1, macro_row as int + 1),
    ensures
        r == spec_macro_neighbor_transition(grid.cells@, macro_col as int, macro_row as int, variant),
{
    let here = sample_display_quads(grid, macro_col, macro_row);
    proof { lemma_quads_seq(here, grid.cells@, macro_col as int, macro_row as int); }
    if block_touches_coast(&here) {
        return None;
    }
    let here_biome = match dominant_block_biome(&here) {
        Some(b) => b,
        None => {
            return None;
        },
    };
    if macro_col + 1 < DISPLAY_GRID {
        let east = sample_display_quads(grid, macro_col + 1, macro_row);
        proof { lemma_quads_seq(east, grid.cells@, macro_col as int + 1, macro_row as int); }
        if display_block_has_land(grid, macro_col + 1, macro_row) && !block_touches_coast(&east) {
            if let Some(east_biome) = dominant_block_biome(&east) {
                if east_biome != here_biome {
                    return Some(TransitionSpec {
                        base: biome_ground_surface(here_biome),
                        overlay: biome_ground_surface(east_biome),
                        mask: TransitionMask::VerticalRough,
                        variant,
                    });
                }
            }
        }
    }
    if macro_row + 1 < DISPLAY_GRID {
        let south = sample_display_quads(grid, macro_col, macro_row + 1);
        proof { lemma_quads_seq(south, grid.cells@, macro_col as int, macro_row as int + 1); }
        if display_block_has_land(grid, macro_col, macro_row + 1) && !block_touches_coast(&south) {
            if let Some(south_biome) = dominant_block_biome(&south) {
                if south_biome != here_biome {
                    return Some(TransitionSpec {
                        base: biome_ground_surface(here_biome),
                        overlay: biome_ground_surface(south_biome),
                        mask: TransitionMask::HorizontalRough,
                        variant,
                    });
                }
            }
        }
    }
    None
}

/// Tile variant of block `(mc, mr)`.
pub open spec fn block_variant(mc: int, mr: int) -> u8 {
    (((mc + mr) * 3) % 4) as u8
}

/// Transition of display block `(mc, mr)`: none without land or at the
/// coast; otherwise the blend inside the block, or failing that the blend
/// toward a neighbouring block of another biome.
pub open spec fn spec_display_block_transition(cells: Seq<CellData>, mc: int, mr: int) -> Option<TransitionSpec> {
    let q = quads_of(cells, mc, mr);
    if !block_has_land(cells, mc, mr) || touches_coast(q) {
        None
    } else {
        let variant = block_variant(mc, mr);
        let corners = seq![q[0].surface, q[1].surface, q[2].surface, q[3].surface];
        let in_seam = exists|k: int| 0 <= k < 4 && (#[trigger] q[k]).role == TerrainRole::BiomeSeam;
        match spec_resolve_transition(corners, in_seam, variant) {
            Some(t) => Some(t),
            None => spec_macro_neighbor_transition(cells, mc, mr, variant),
        }
    }
}

/// Transition of one display block.
pub fn display_block_transition(grid: &IslandGenGrid, recipe: &IslandGenRecipe, macro_col: i32, macro_row: i32) -> (r: Option<TransitionSpec>)
    requires
        grid.wf(),
        macro_in_range(macro_col as int, macro_row as int),
    ensures
        r == spec_display_block_transition(grid.cells@, macro_col as int, macro_row as int),
{
    if !display_block_has_land(grid, macro_col, macro_row) {
        return None;
    }
    let quads = sample_display_quads(grid, macro_col, macro_row);
    proof { lemma_quads_seq(quads, grid.cells@, macro_col as int, macro_row as int); }
    if block_touches_coast(&quads) {
        return None;
    }
    let ghost mc = macro_col as int;
    let ghost mr = macro_row as int;
    assert(0 <= mc <= 155 && 0 <= mr <= 155) by {
        let k = choose|k: int| 0 <= k < 4 && (#[trigger] quad_at(grid.cells@, mc, mr, k)).role.land();
    }
    let sum: u32 = (macro_col + macro_row) as u32;
    let s: u32 = sum % 256;
    let variant: u8 = ((s * 3) % 256 % 4) as u8;
    assert(((sum % 256) * 3 % 256) % 4 == (sum * 3) % 4) by (bit_vector)
        requires
            sum <= 310,
    ;
    let corners: [SurfaceId; 4] = [quads[0].surface, quads[1].surface, quads[2].surface, quads[3].surface];
    let mut in_seam = false;
    let mut k: usize = 0;
    while k < 4
        invariant
            k <= 4,
            in_seam == exists|j: int| 0 <= j < k && (#[trigger] quads@[j]).role == TerrainRole::BiomeSeam,
        decreases 4 - k,
    {
        if quads[k].role == TerrainRole::BiomeSeam {
            in_seam = true;
        }
        k = k + 1;
    }
    assert(corners@ =~= seq![quads@[0].surface, quads@[1].surface, quads@[2].surface, quads@[3].surface]);
    if let Some(spec) = resolve_transition(corners, in_seam, variant) {
        return Some(spec);
    }
    macro_neighbor_biome_transition(grid, macro_col, macro_row, variant)
}


/// The two cell sequences agree on every cell's role, surface and biome.
pub open spec fn same_layout(c1: Seq<CellData>, c2: Seq<CellData>) -> bool {
    &&& c1.len() == c2.len()
    &&& forall|i: int| 0 <= i < c1.len() ==> (#[trigger] c1[i]).role == c2[i].role && c1[i].surface == c2[i].surface
        && c1[i].biome == c2[i].biome
}

proof fn lemma_quads_layout(c1: Seq<CellData>, c2: Seq<CellData>, mc: int, mr: int)
    requires
        c1.len() == 97344,
        same_layout(c1, c2),
    ensures
        quads_of(c1, mc, mr) == quads_of(c2, mc, mr),
        block_has_land(c1, mc, mr) == block_has_land(c2, mc, mr),
{
    assert forall|k: int| 0 <= k < 4 implies #[trigger] quad_at(c1, mc, mr, k) == quad_at(c2, mc, mr, k) by {
        let col = mc * 2 + quad_dc(k);
        let row = mr * 2 + quad_dr(k);
        if in_grid(col, row) {
            assert(valid_cell(flat_index(col, row))) by (nonlinear_arith)
                requires
                    0 <= col < 312,
                    0 <= row < 312,
            ;
            assert(c1[flat_index(col, row)].role == c2[flat_index(col, row)].role);
        }
    }
    assert(quads_of(c1, mc, mr) =~= quads_of(c2, mc, mr));
}

/// The transition of a block reads only roles, surfaces and biomes.
proof fn lemma_block_transition_layout(c1: Seq<CellData>, c2: Seq<CellData>, mc: int, mr: int)
    requires
        c1.len() == 97344,
        same_layout(c1, c2),
    ensures
        spec_display_block_transition(c1, mc, mr) == spec_display_block_transition(c2, mc, mr),
{
    lemma_quads_layout(c1, c2, mc, mr);
    lemma_quads_layout(c1, c2, mc + 1, mr);
    lemma_quads_layout(c1, c2, mc, mr + 1);
}

/// Transition field of cell `i` after transition assignment.
pub open spec fn cell_transition(cells: Seq<CellData>, i: int) -> Option<TransitionSpec> {
    if cells[i].role.land() {
        spec_display_block_transition(cells, col_of(i) / 2, row_of(i) / 2)
    } else {
        None
    }
}

/// Assign each land cell the transition of its display block; every other
/// cell gets none.
pub fn assign_transition_specs(grid: &mut IslandGenGrid, recipe: &IslandGenRecipe)
    requires
        old(grid).wf(),
    ensures
        final(grid).wf(),
        final(grid).recipe == old(grid).recipe,
        final(grid).interior_holes_filled == old(grid).interior_holes_filled,
        forall|i: int| valid_cell(i) ==> #[trigger] final(grid).cells@[i] == (CellData {
            transition: cell_transition(old(grid).cells@, i),
            ..old(grid).cells@[i]
        }),
{
    let ghost c0 = grid.cells@;
    let mut i: usize = 0;
    while i < CELL_COUNT
        invariant
            i <= CELL_COUNT,
            grid.wf(),
            c0 == old(grid).cells@,
            c0.len() == 97344,
            grid.recipe == old(grid).recipe,
            grid.interior_holes_filled == old(grid).interior_holes_filled,
            forall|j: int| 0 <= j < i ==> #[trigger] grid.cells@[j] == (CellData { transition: cell_transition(c0, j), ..c0[j] }),
            forall|j: int| i <= j < 97344 ==> #[trigger] grid.cells@[j] == c0[j],
        decreases CELL_COUNT - i,
    {
        let c = grid.cells[i];
        if c.role.is_land() {
            let ghost cb = grid.cells@;
            proof {
                assert(same_layout(c0, cb)) by {
                    assert forall|j: int| 0 <= j < c0.len() implies (#[trigger] c0[j]).role == cb[j].role && c0[j].surface == cb[j].surface
                        && c0[j].biome == cb[j].biome by {
                        if j < i {
                            assert(cb[j] == (CellData { transition: cell_transition(c0, j), ..c0[j] }));
                        } else {
                            assert(cb[j] == c0[j]);
                        }
                    }
                }
            }
            let mc = (i % 312 / 2) as i32;
            let mr = (i / 312 / 2) as i32;
            let t = display_block_transition(grid, recipe, mc, mr);
            proof { lemma_block_transition_layout(c0, cb, mc as int, mr as int); }
            grid.cells.set(i, CellData { transition: t, ..c });
        } else {
            grid.cells.set(i, CellData { transition: None, ..c });
        }
        i = i + 1;
    }
}

/// Occurrences of surface `s` among four surfaces.
pub open spec fn surface_count4(s: Seq<SurfaceId>, x: SurfaceId) -> int {
    (if s[0] == x { 1int } else { 0 }) + (if s[1] == x { 1int } else { 0 }) + (if s[2] == x { 1int } else { 0 })
        + (if s[3] == x { 1int } else { 0 })
}

/// The most common surface of a display block, the first to appear among
/// equals.
pub open spec fn is_dominant_surface(s: Seq<SurfaceId>, r: SurfaceId) -> bool {
    exists|j: int|
        0 <= j < 4 && s[j] == r && (forall|i: int| 0 <= i < 4 ==> surface_count4(s, #[trigger] s[i]) <= surface_count4(s, r))
            && (forall|i: int| 0 <= i < j ==> surface_count4(s, #[trigger] s[i]) < surface_count4(s, r))
}

/// The most common surface of a display block.
pub fn dominant_display_surface(grid: &IslandGenGrid, macro_col: i32, macro_row: i32) -> (r: SurfaceId)
    requires
        grid.wf(),
        macro_in_range(macro_col as int, macro_row as int),
    ensures
        is_dominant_surface(
            seq![
                quad_at(grid.cells@, macro_col as int, macro_row as int, 0).surface,
                quad_at(grid.cells@, macro_col as int, macro_row as int, 1).surface,
                quad_at(grid.cells@, macro_col as int, macro_row as int, 2).surface,
                quad_at(grid.cells@, macro_col as int, macro_row as int, 3).surface,
            ],
            r,
        ),
{
    let surfaces = sample_display_block(grid, macro_col, macro_row);
    let ghost sq = surfaces@;
    let mut best: usize = 0;
    let mut best_count: u8 = 0;
    let mut i: usize = 0;
    while i < 4
        invariant
            i <= 4,
            sq == surfaces@,
            best < 4,
            i == 0 ==> best == 0 && best_count == 0,
            i > 0 ==> best < i && best_count == surface_count4(sq, sq[best as int]),
            forall|j: int| 0 <= j < i ==> surface_count4(sq, #[trigger] sq[j]) <= best_count,
            forall|j: int| 0 <= j < best ==> surface_count4(sq, #[trigger] sq[j]) < best_count,
        decreases 4 - i,
    {
        let s = surfaces[i];
        let mut n: u8 = 0;
        if surfaces[0] == s { n = n + 1; }
        if surfaces[1] == s { n = n + 1; }
        if surfaces[2] == s { n = n + 1; }
        if surfaces[3] == s { n = n + 1; }
        if n > best_count {
            best_count = n;
            best = i;
        }
        i = i + 1;
    }
    assert(sq =~= seq![
        quad_at(grid.cells@, macro_col as int, macro_row as int, 0).surface,
        quad_at(grid.cells@, macro_col as int, macro_row as int, 1).surface,
        quad_at(grid.cells@, macro_col as int, macro_row as int, 2).surface,
        quad_at(grid.cells@, macro_col as int, macro_row as int, 3).surface,
    ]);
    surfaces[best]
}

/// What a 64 px display block shows once transitions are painted.
#[derive(Clone, Copy, Debug, PartialEq, Eq, Structural)]
pub enum DisplayTileArt {
    /// No land in the block: the water backdrop shows through.
    Water,
    /// A composited transition between two surfaces.
    Transition(TransitionSpec),
    /// The block's most common surface.
    Surface(SurfaceId),
}

/// The art of display block `(macro_col, macro_row)` at the transition and
/// final stages: water without land, the block's transition when it has one,
/// else its dominant surface.
pub fn display_tile_art(grid: &IslandGenGrid, recipe: &IslandGenRecipe, macro_col: i32, macro_row: i32) -> (r: DisplayTileArt)
    requires
        grid.wf(),
        macro_in_range(macro_col as int, macro_row as int),
    ensures
        !block_has_land(grid.cells@, macro_col as int, macro_row as int) ==> r == DisplayTileArt::Water,
        block_has_land(grid.cells@, macro_col as int, macro_row as int) ==> match spec_display_block_transition(
            grid.cells@,
            macro_col as int,
            macro_row as int,
        ) {
            Some(t) => r == DisplayTileArt::Transition(t),
            None => r matches DisplayTileArt::Surface(s) && is_dominant_surface(
                seq![
                    quad_at(grid.cells@, macro_col as int, macro_row as int, 0).surface,
                    quad_at(grid.cells@, macro_col as int, macro_row as int, 1).surface,
                    quad_at(grid.cells@, macro_col as int, macro_row as int, 2).surface,
                    quad_at(grid.cells@, macro_col as int, macro_row as int, 3).surface,
                ],
                s,
            ),
        },
{
    if !display_block_has_land(grid, macro_col, macro_row) {
        return DisplayTileArt::Water;
    }
    match display_block_transition(grid, recipe, macro_col, macro_row) {
        Some(t) => DisplayTileArt::Transition(t),
        None => DisplayTileArt::Surface(dominant_display_surface(grid, macro_col, macro_row)),
    }
}

} // verus!

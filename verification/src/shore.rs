//! Dual-grid autotiling of the shallow-water shoreline: each display tile is
//! chosen by the water/sand state of the four world cells meeting at its
//! centre.

use vstd::prelude::*;
use vstd::string::StringSliceAdditionalSpecFns;
use crate::text::{owned, append_padded, padded_digits};

verus! {

/// Folder of the shallow-water tiles.
pub const DIR: &'static str = "tilesets/ocean/shallow";
pub const BASE_WATER: &'static str = "tilesets/ocean/shallow/shallow_loop_base_01.png";
pub const EDGE_N: &'static str = "tilesets/ocean/shallow/shallow_water_to_sand_edge_n.png";
pub const EDGE_E: &'static str = "tilesets/ocean/shallow/shallow_water_to_sand_edge_e.png";
pub const EDGE_S: &'static str = "tilesets/ocean/shallow/shallow_water_to_sand_edge_s.png";
pub const EDGE_W: &'static str = "tilesets/ocean/shallow/shallow_water_to_sand_edge_w.png";
pub const OUTER_NW: &'static str = "tilesets/ocean/shallow/shallow_water_to_sand_outer_nw.png";
pub const OUTER_NE: &'static str = "tilesets/ocean/shallow/shallow_water_to_sand_outer_ne.png";
pub const OUTER_SE: &'static str = "tilesets/ocean/shallow/shallow_water_to_sand_outer_se.png";
pub const OUTER_SW: &'static str = "tilesets/ocean/shallow/shallow_water_to_sand_outer_sw.png";
pub const INNER_NW: &'static str = "tilesets/ocean/shallow/shallow_water_to_sand_inner_nw.png";
pub const INNER_NE: &'static str = "tilesets/ocean/shallow/shallow_water_to_sand_inner_ne.png";
pub const INNER_SE: &'static str = "tilesets/ocean/shallow/shallow_water_to_sand_inner_se.png";
pub const INNER_SW: &'static str = "tilesets/ocean/shallow/shallow_water_to_sand_inner_sw.png";

/// Corner code: bit 0 north-west, bit 1 north-east, bit 2 south-east, bit 3
/// south-west; a set bit is water.
pub open spec fn spec_corner_code(nw: bool, ne: bool, se: bool, sw: bool) -> u8 {
    ((if nw { 1int } else { 0 }) + (if ne { 2int } else { 0 }) + (if se { 4int } else { 0 }) + (if sw { 8int } else { 0 })) as u8
}

/// Corner bitmask of a display tile.
pub fn corner_code(nw: bool, ne: bool, se: bool, sw: bool) -> (r: u8)
    ensures
        r == spec_corner_code(nw, ne, se, sw),
{
    let mut c: u8 = 0;
    if nw { c = c + 1; }
    if ne { c = c + 2; }
    if se { c = c + 4; }
    if sw { c = c + 8; }
    c
}

/// Dual-grid lookup: the display tile at `(i, j)` is set by the world cells
/// `(i-1, j-1)` north-west, `(i, j-1)` north-east, `(i-1, j)` south-west and
/// `(i, j)` south-east; `water(x, y)` tells whether a world cell is water.
pub fn dual_grid_code<F: Fn(i32, i32) -> bool>(water: &F, i: i32, j: i32) -> (r: u8)
    requires
        i > i32::MIN,
        j > i32::MIN,
        forall|x: i32, y: i32| call_requires(*water, (x, y)),
    ensures
        exists|nw: bool, ne: bool, se: bool, sw: bool|
            call_ensures(*water, ((i - 1) as i32, (j - 1) as i32), nw) && call_ensures(*water, (i, (j - 1) as i32), ne)
                && call_ensures(*water, (i, j), se) && call_ensures(*water, ((i - 1) as i32, j), sw)
                && r == spec_corner_code(nw, ne, se, sw),
{
    let nw = water(i - 1, j - 1);
    let ne = water(i, j - 1);
    let sw = water(i - 1, j);
    let se = water(i, j);
    corner_code(nw, ne, se, sw)
}

/// The single tile of a corner code: full water, the four edges (named by
/// their sand side), the four outer corners (one sand corner) and the four
/// inner corners (one water corner). All-sand and the two diagonals have none.
pub open spec fn spec_tile_path_for_code(code: u8) -> Option<Seq<char>> {
    if code == 15 {
        Some(BASE_WATER@)
    } else if code == 3 {
        Some(EDGE_S@)
    } else if code == 12 {
        Some(EDGE_N@)
    } else if code == 9 {
        Some(EDGE_E@)
    } else if code == 6 {
        Some(EDGE_W@)
    } else if code == 14 {
        Some(OUTER_NW@)
    } else if code == 13 {
        Some(OUTER_NE@)
    } else if code == 11 {
        Some(OUTER_SE@)
    } else if code == 7 {
        Some(OUTER_SW@)
    } else if code == 1 {
        Some(INNER_NW@)
    } else if code == 2 {
        Some(INNER_NE@)
    } else if code == 4 {
        Some(INNER_SE@)
    } else if code == 8 {
        Some(INNER_SW@)
    } else {
        None
    }
}

/// The single tile of a corner code.
pub fn tile_path_for_code(code: u8) -> (r: Option<&'static str>)
    ensures
        match r {
            Some(p) => spec_tile_path_for_code(code) == Some(p@),
            None => spec_tile_path_for_code(code) is None,
        },
{
    match code {
        15 => Some(BASE_WATER),
        3 => Some(EDGE_S),
        12 => Some(EDGE_N),
        9 => Some(EDGE_E),
        6 => Some(EDGE_W),
        14 => Some(OUTER_NW),
        13 => Some(OUTER_NE),
        11 => Some(OUTER_SE),
        7 => Some(OUTER_SW),
        1 => Some(INNER_NW),
        2 => Some(INNER_NE),
        4 => Some(INNER_SE),
        8 => Some(INNER_SW),
        _ => None,
    }
}

/// What to draw for a corner code. Diagonals have no dedicated art and are
/// composited from the two matching inner corners.
#[derive(Clone, Copy, Debug, PartialEq, Eq)]
pub enum TileArt {
    Empty,
    Single(&'static str),
    Diagonal(&'static str, &'static str),
}

/// What to draw for a corner code.
pub fn tile_art_for_code(code: u8) -> (r: TileArt)
    ensures
        code == 5 ==> r == TileArt::Diagonal(INNER_NW, INNER_SE),
        code == 10 ==> r == TileArt::Diagonal(INNER_NE, INNER_SW),
        code != 5 && code != 10 ==> match r {
            TileArt::Single(p) => spec_tile_path_for_code(code) == Some(p@),
            TileArt::Empty => spec_tile_path_for_code(code) is None,
            TileArt::Diagonal(_, _) => false,
        },
{
    match code {
        5 => TileArt::Diagonal(INNER_NW, INNER_SE),
        10 => TileArt::Diagonal(INNER_NE, INNER_SW),
        _ => match tile_path_for_code(code) {
            Some(path) => TileArt::Single(path),
            None => TileArt::Empty,
        },
    }
}

/// Every corner code but all-sand draws something: a single tile for all but
/// the two diagonals, which composite two distinct inner corners.
pub proof fn law_every_code_draws(code: u8)
    requires
        code < 16,
    ensures
        code != 0 && code != 5 && code != 10 <==> spec_tile_path_for_code(code) is Some,
        INNER_NW@ != INNER_SE@ && INNER_NE@ != INNER_SW@,
{
    reveal_strlit("tilesets/ocean/shallow/shallow_water_to_sand_inner_nw.png");
    reveal_strlit("tilesets/ocean/shallow/shallow_water_to_sand_inner_se.png");
    reveal_strlit("tilesets/ocean/shallow/shallow_water_to_sand_inner_ne.png");
    reveal_strlit("tilesets/ocean/shallow/shallow_water_to_sand_inner_sw.png");
    assert(INNER_NW@[51] != INNER_SE@[51]);
    assert(INNER_NE@[51] != INNER_SW@[51]);
}

/// The sixteen corner codes with a readable label, in palette order.
pub fn palette() -> (r: Vec<(u8, &'static str)>)
    ensures
        r@.len() == 16,
        forall|i: int, j: int| 0 <= i < j < 16 ==> r@[i].0 != r@[j].0,
        forall|i: int| 0 <= i < 16 ==> r@[i].0 < 16,
{
    let r = vec![
        (15u8, "Full Water"),
        (0u8, "Sand"),
        (3u8, "Edge N"),
        (12u8, "Edge S"),
        (9u8, "Edge W"),
        (6u8, "Edge E"),
        (14u8, "Outer NW"),
        (13u8, "Outer NE"),
        (11u8, "Outer SE"),
        (7u8, "Outer SW"),
        (1u8, "Inner NW"),
        (2u8, "Inner NE"),
        (4u8, "Inner SE"),
        (8u8, "Inner SW"),
        (5u8, "Diag NW-SE"),
        (10u8, "Diag NE-SW"),
    ];
    r
}

/// Small deterministic hash for picking per-tile rotation and variant.
pub open spec fn spec_hash2(x: i32, y: i32) -> u32 {
    let h0 = (x as u32).wrapping_mul(374_761_393).wrapping_add((y as u32).wrapping_mul(668_265_263));
    let h1 = h0 ^ (h0 >> 13u32);
    let h2 = h1.wrapping_mul(1_274_126_177);
    h2 ^ (h2 >> 16u32)
}

/// Small deterministic hash of a tile position.
pub fn hash2(x: i32, y: i32) -> (r: u32)
    ensures
        r == spec_hash2(x, y),
{
    let mut h = (x as u32).wrapping_mul(374_761_393).wrapping_add((y as u32).wrapping_mul(668_265_263));
    h = h ^ (h >> 13u32);
    h = h.wrapping_mul(1_274_126_177);
    h ^ (h >> 16u32)
}

/// Cove tiles with their labels, in gallery order.
pub open spec fn spec_coves() -> Seq<(Seq<char>, Seq<char>)> {
    seq![
        ("Cove In L"@, "tilesets/ocean/shallow/shallow_water_cove_in_left.png"@),
        ("Cove In R"@, "tilesets/ocean/shallow/shallow_water_cove_in_right.png"@),
        ("Cove Out L"@, "tilesets/ocean/shallow/shallow_water_cove_out_left.png"@),
        ("Cove Out R"@, "tilesets/ocean/shallow/shallow_water_cove_out_right.png"@),
    ]
}

/// Edge and corner tiles with their labels, in gallery order.
pub open spec fn spec_edge_tiles() -> Seq<(Seq<char>, Seq<char>)> {
    seq![
        ("Edge N"@, EDGE_N@),
        ("Edge E"@, EDGE_E@),
        ("Edge S"@, EDGE_S@),
        ("Edge W"@, EDGE_W@),
        ("Outer NW"@, OUTER_NW@),
        ("Outer NE"@, OUTER_NE@),
        ("Outer SE"@, OUTER_SE@),
        ("Outer SW"@, OUTER_SW@),
        ("Inner NW"@, INNER_NW@),
        ("Inner NE"@, INNER_NE@),
        ("Inner SE"@, INNER_SE@),
        ("Inner SW"@, INNER_SW@),
    ]
}

/// Entry `k` of the tile gallery: twelve numbered water frames, the twelve
/// edge and corner tiles, the four coves and four numbered accents.
pub open spec fn gallery_entry(k: int) -> (Seq<char>, Seq<char>) {
    if k < 12 {
        ("Water "@ + padded_digits((k + 1) as nat, 10, 2), DIR@ + "/shallow_loop_base_"@ + padded_digits((k + 1) as nat, 10, 2) + ".png"@)
    } else if k < 24 {
        spec_edge_tiles()[k - 12]
    } else if k < 28 {
        spec_coves()[k - 24]
    } else {
        ("Accent "@ + padded_digits((k - 27) as nat, 10, 2), "tilesets/ocean/shallow/shallow_water_accent_"@ + padded_digits((k - 27) as nat, 10, 2) + ".png"@)
    }
}

fn labelled(label: &str, path: &str) -> (r: (String, String))
    ensures
        r.0@ == label@,
        r.1@ == path@,
{
    (owned(label), owned(path))
}

/// Every source tile of the shallow-shore set as (label, path), in gallery
/// order.
pub fn gallery_entries() -> (r: Vec<(String, String)>)
    ensures
        r@.len() == 32,
        forall|k: int| 0 <= k < 32 ==> (#[trigger] r@[k]).0@ == gallery_entry(k).0 && r@[k].1@ == gallery_entry(k).1,
{
    let mut entries: Vec<(String, String)> = Vec::new();
    let mut n: u64 = 1;
    while n <= 12
        invariant
            1 <= n <= 13,
            entries@.len() == n - 1,
            forall|k: int| 0 <= k < entries@.len() ==> (#[trigger] entries@[k]).0@ == gallery_entry(k).0 && entries@[k].1@ == gallery_entry(k).1,
        decreases 13 - n,
    {
        let mut label = owned("Water ");
        append_padded(&mut label, n, 10, 2);
        let mut path = owned(DIR);
        path.append("/shallow_loop_base_");
        append_padded(&mut path, n, 10, 2);
        path.append(".png");
        entries.push((label, path));
        n = n + 1;
    }
    let ghost before = entries@;
    entries.push(labelled("Edge N", EDGE_N));
    assert(entries@[12] == entries@.last() && forall|k: int| 0 <= k < before.len() ==> entries@[k] == before[k]);
    let ghost before = entries@;
    entries.push(labelled("Edge E", EDGE_E));
    assert(entries@[13] == entries@.last() && forall|k: int| 0 <= k < before.len() ==> entries@[k] == before[k]);
    let ghost before = entries@;
    entries.push(labelled("Edge S", EDGE_S));
    assert(entries@[14] == entries@.last() && forall|k: int| 0 <= k < before.len() ==> entries@[k] == before[k]);
    let ghost before = entries@;
    entries.push(labelled("Edge W", EDGE_W));
    assert(entries@[15] == entries@.last() && forall|k: int| 0 <= k < before.len() ==> entries@[k] == before[k]);
    let ghost before = entries@;
    entries.push(labelled("Outer NW", OUTER_NW));
    assert(entries@[16] == entries@.last() && forall|k: int| 0 <= k < before.len() ==> entries@[k] == before[k]);
    let ghost before = entries@;
    entries.push(labelled("Outer NE", OUTER_NE));
    assert(entries@[17] == entries@.last() && forall|k: int| 0 <= k < before.len() ==> entries@[k] == before[k]);
    let ghost before = entries@;
    entries.push(labelled("Outer SE", OUTER_SE));
    assert(entries@[18] == entries@.last() && forall|k: int| 0 <= k < before.len() ==> entries@[k] == before[k]);
    let ghost before = entries@;
    entries.push(labelled("Outer SW", OUTER_SW));
    assert(entries@[19] == entries@.last() && forall|k: int| 0 <= k < before.len() ==> entries@[k] == before[k]);
    let ghost before = entries@;
    entries.push(labelled("Inner NW", INNER_NW));
    assert(entries@[20] == entries@.last() && forall|k: int| 0 <= k < before.len() ==> entries@[k] == before[k]);
    let ghost before = entries@;
    entries.push(labelled("Inner NE", INNER_NE));
    assert(entries@[21] == entries@.last() && forall|k: int| 0 <= k < before.len() ==> entries@[k] == before[k]);
    let ghost before = entries@;
    entries.push(labelled("Inner SE", INNER_SE));
    assert(entries@[22] == entries@.last() && forall|k: int| 0 <= k < before.len() ==> entries@[k] == before[k]);
    let ghost before = entries@;
    entries.push(labelled("Inner SW", INNER_SW));
    assert(entries@[23] == entries@.last() && forall|k: int| 0 <= k < before.len() ==> entries@[k] == before[k]);
    let ghost before = entries@;
    entries.push(labelled("Cove In L", "tilesets/ocean/shallow/shallow_water_cove_in_left.png"));
    assert(entries@[24] == entries@.last() && forall|k: int| 0 <= k < before.len() ==> entries@[k] == before[k]);
    let ghost before = entries@;
    entries.push(labelled("Cove In R", "tilesets/ocean/shallow/shallow_water_cove_in_right.png"));
    assert(entries@[25] == entries@.last() && forall|k: int| 0 <= k < before.len() ==> entries@[k] == before[k]);
    let ghost before = entries@;
    entries.push(labelled("Cove Out L", "tilesets/ocean/shallow/shallow_water_cove_out_left.png"));
    assert(entries@[26] == entries@.last() && forall|k: int| 0 <= k < before.len() ==> entries@[k] == before[k]);
    let ghost before = entries@;
    entries.push(labelled("Cove Out R", "tilesets/ocean/shallow/shallow_water_cove_out_right.png"));
    assert(entries@[27] == entries@.last() && forall|k: int| 0 <= k < before.len() ==> entries@[k] == before[k]);
    assert forall|k: int| 0 <= k < entries@.len() implies (#[trigger] entries@[k]).0@ == gallery_entry(k).0 && entries@[k].1@ == gallery_entry(k).1 by {
    }
    let mut a: u64 = 1;
    while a <= 4
        invariant
            1 <= a <= 5,
            entries@.len() == 27 + a,
            forall|k: int| 0 <= k < entries@.len() ==> (#[trigger] entries@[k]).0@ == gallery_entry(k).0 && entries@[k].1@ == gallery_entry(k).1,
        decreases 5 - a,
    {
        let mut label = owned("Accent ");
        append_padded(&mut label, a, 10, 2);
        let mut path = owned("tilesets/ocean/shallow/shallow_water_accent_");
        append_padded(&mut path, a, 10, 2);
        path.append(".png");
        entries.push((label, path));
        a = a + 1;
    }
    entries
}

/// Whether cell `(c, r)` of a hand-drawn mask is water: it lies inside the
/// mask (as wide as its first row) and its byte is `#`; anything else,
/// outside included, is sand.
pub open spec fn spec_mask_water(mask: Seq<&str>, c: int, r: int) -> bool {
    &&& 0 <= c
    &&& 0 <= r < mask.len()
    &&& c < mask[0].spec_bytes().len()
    &&& c < mask[r].spec_bytes().len()
    &&& mask[r].spec_bytes()[c] == 35u8
}

/// Exec form of `spec_mask_water`.
pub fn mask_water(mask: &[&str], c: i32, r: i32) -> (w: bool)
    requires
        mask@.len() > 0,
    ensures
        w == spec_mask_water(mask@, c as int, r as int),
{
    if c < 0 || r < 0 {
        return false;
    }
    let row_index = r as usize;
    let col = c as usize;
    if row_index >= mask.len() || col >= mask[0].as_bytes().len() {
        return false;
    }
    let row = mask[row_index].as_bytes();
    if col >= row.len() {
        return false;
    }
    row[col] == 35u8
}

} // verus!

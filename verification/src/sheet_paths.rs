//! Where character sheets live and how file names map to facings, including
//! the misspelt exports the art folders contain; and which loaded clip a new
//! sprite shows first. Scanning folders and loading images is the caller's.

use vstd::prelude::*;
use crate::direction::{EightDirection, all_directions, direction_suffix, direction_ordinal};
use crate::sheets::{DirectionSheetSet, LoadoutAnimationSet};
use crate::text::str_eq;

verus! {

/// `t` occurs in `s` at position `i`.
pub open spec fn occurs_at(s: Seq<char>, t: Seq<char>, i: int) -> bool {
    0 <= i && i + t.len() <= s.len() && s.subrange(i, i + t.len()) == t
}

/// `t` occurs in `s`.
pub open spec fn contains_text(s: Seq<char>, t: Seq<char>) -> bool {
    exists|i: int| occurs_at(s, t, i)
}

/// Whether `t` occurs in `s`.
pub fn str_contains(s: &str, t: &str) -> (r: bool)
    ensures
        r == contains_text(s@, t@),
{
    let n = s.unicode_len();
    let m = t.unicode_len();
    if m > n {
        proof {
            assert forall|i: int| !occurs_at(s@, t@, i) by {}
        }
        return false;
    }
    let mut i: usize = 0;
    while i <= n - m
        invariant
            n == s@.len(),
            m == t@.len(),
            m <= n,
            i <= n - m + 1,
            forall|k: int| 0 <= k < i ==> !occurs_at(s@, t@, k),
        decreases n - m + 1 - i,
    {
        let mut j: usize = 0;
        let mut ok = true;
        while j < m
            invariant
                n == s@.len(),
                m == t@.len(),
                i + m <= n,
                j <= m,
                ok == forall|q: int| 0 <= q < j ==> s@[i + q] == t@[q],
            decreases m - j,
        {
            if s.get_char(i + j) != t.get_char(j) {
                ok = false;
            }
            j = j + 1;
        }
        if ok {
            assert(s@.subrange(i as int, i + m) =~= t@);
            assert(occurs_at(s@, t@, i as int));
            return true;
        }
        proof {
            assert(!occurs_at(s@, t@, i as int)) by {
                if s@.subrange(i as int, i + m) == t@ {
                    let q = choose|q: int| 0 <= q < m && s@[i + q] != t@[q];
                    assert(s@.subrange(i as int, i + m)[q] == s@[i + q]);
                }
            }
        }
        i = i + 1;
    }
    false
}

/// Facing index named in a sheet file stem: the first facing whose suffix
/// occurs in it (canonical order), else the known misspellings `swest`
/// (south-west), `norheast` (north-east), `nortwest` and `--northwest`
/// (north-west); `None` for none of these.
pub open spec fn spec_direction_from_stem(stem: Seq<char>) -> Option<usize> {
    if exists|k: int| 0 <= k < 8 && contains_text(stem, direction_suffix(all_directions()[k])) {
        let k = choose|k: int| 0 <= k < 8 && contains_text(stem, direction_suffix(all_directions()[k]))
            && forall|j: int| 0 <= j < k ==> !contains_text(stem, direction_suffix(all_directions()[j]));
        Some(k as usize)
    } else if contains_text(stem, "swest"@) {
        Some(7usize)
    } else if contains_text(stem, "norheast"@) {
        Some(3usize)
    } else if contains_text(stem, "nortwest"@) || contains_text(stem, "--northwest"@) {
        Some(5usize)
    } else {
        None
    }
}

/// Facing index named in a sheet file stem.
pub fn direction_index_from_stem(stem: &str) -> (r: Option<usize>)
    ensures
        r == spec_direction_from_stem(stem@),
{
    let dirs = EightDirection::all();
    let mut k: usize = 0;
    while k < 8
        invariant
            k <= 8,
            dirs@ == all_directions(),
            forall|j: int| 0 <= j < k ==> !contains_text(stem@, direction_suffix(all_directions()[j])),
        decreases 8 - k,
    {
        if str_contains(stem, dirs[k].file_suffix()) {
            proof {
                let kk = choose|kk: int| 0 <= kk < 8 && contains_text(stem@, direction_suffix(all_directions()[kk]))
                    && forall|j: int| 0 <= j < kk ==> !contains_text(stem@, direction_suffix(all_directions()[j]));
                if kk < k {
                } else if kk > k {
                    assert(!contains_text(stem@, direction_suffix(all_directions()[k as int])));
                }
            }
            return Some(k);
        }
        k = k + 1;
    }
    if str_contains(stem, "swest") {
        return Some(7);
    }
    if str_contains(stem, "norheast") {
        return Some(3);
    }
    if str_contains(stem, "nortwest") || str_contains(stem, "--northwest") {
        return Some(5);
    }
    None
}

/// Misspelt suffixes to try when a facing's sheet is missing.
pub open spec fn spec_direction_fallback(suffix: Seq<char>) -> Seq<Seq<char>> {
    if suffix == "south"@ {
        seq!["wouth"@]
    } else if suffix == "northeast"@ {
        seq!["norheast"@]
    } else if suffix == "northwest"@ {
        seq!["nortwest"@]
    } else if suffix == "southwest"@ {
        seq!["southeast"@]
    } else {
        Seq::empty()
    }
}

/// Misspelt suffixes to try when a facing's sheet is missing.
pub fn direction_fallback(suffix: &str) -> (r: Vec<&'static str>)
    ensures
        r@.len() == spec_direction_fallback(suffix@).len(),
        forall|k: int| 0 <= k < r@.len() ==> (#[trigger] r@[k])@ == spec_direction_fallback(suffix@)[k],
{
    if str_eq(suffix, "south") {
        vec!["wouth"]
    } else if str_eq(suffix, "northeast") {
        vec!["norheast"]
    } else if str_eq(suffix, "northwest") {
        vec!["nortwest"]
    } else if str_eq(suffix, "southwest") {
        vec!["southeast"]
    } else {
        Vec::new()
    }
}

/// Base path (without extension) of a facing's sheet.
pub fn direction_sheet_base(root: &str, folder: &str, prefix: &str, suffix: &str) -> (r: String)
    ensures
        r@ == root@ + "/"@ + folder@ + "/"@ + prefix@ + "-"@ + suffix@ + "-sheet"@,
{
    let mut s = String::new();
    s.append(root);
    s.append("/");
    s.append(folder);
    s.append("/");
    s.append(prefix);
    s.append("-");
    s.append(suffix);
    s.append("-sheet");
    assert(s@ =~= root@ + "/"@ + folder@ + "/"@ + prefix@ + "-"@ + suffix@ + "-sheet"@);
    s
}

/// Folder of a loadout's clips.
pub fn loadout_root(class: &str, loadout_id: &str) -> (r: String)
    ensures
        r@ == "runtime/characters/player_default/"@ + class@ + "/loadouts/"@ + loadout_id@,
{
    let mut s = String::new();
    s.append("runtime/characters/player_default/");
    s.append(class);
    s.append("/loadouts/");
    s.append(loadout_id);
    assert(s@ =~= "runtime/characters/player_default/"@ + class@ + "/loadouts/"@ + loadout_id@);
    s
}

/// Action clip folders and file prefixes, in the order they are tried.
pub open spec fn spec_action_folders() -> Seq<(Seq<char>, Seq<char>)> {
    seq![
        ("slashing"@, "slashing"@),
        ("shooting"@, "shooting"@),
        ("playing"@, "playing"@),
        ("swing"@, "swing"@),
        ("attacks"@, "mele"@),
        ("dig"@, "dig"@),
        ("stir"@, "stir"@),
        ("aimed"@, "aimed"@),
        ("kneeled-shooting"@, "kneeled-shooting"@),
    ]
}

/// Action clip folders and file prefixes, tried in order.
pub fn action_folders() -> (r: Vec<(&'static str, &'static str)>)
    ensures
        r@.len() == spec_action_folders().len(),
        forall|k: int| 0 <= k < r@.len() ==> (#[trigger] r@[k]).0@ == spec_action_folders()[k].0
            && r@[k].1@ == spec_action_folders()[k].1,
{
    vec![
        ("slashing", "slashing"),
        ("shooting", "shooting"),
        ("playing", "playing"),
        ("swing", "swing"),
        ("attacks", "mele"),
        ("dig", "dig"),
        ("stir", "stir"),
        ("aimed", "aimed"),
        ("kneeled-shooting", "kneeled-shooting"),
    ]
}

/// Walking plays the running clips when walking art is missing and running
/// art is loaded.
pub fn walk_uses_run(walking: &DirectionSheetSet, running: &DirectionSheetSet) -> (r: bool)
    ensures
        r == (!walking.ready() && running.ready()),
{
    !walking.is_ready() && running.is_ready()
}

/// Which clip a new sprite shows first.
#[derive(Clone, Copy, Debug, PartialEq, Eq, Structural)]
pub enum ClipKind {
    Idle,
    Walking,
    Running,
}

/// The first facing of `sheet` with frames among: the requested facing,
/// south, then every facing in order.
pub open spec fn first_facing(sheet: DirectionSheetSet, facing: int) -> Option<usize> {
    if sheet.frame_counts@[facing] > 0 {
        Some(facing as usize)
    } else if sheet.frame_counts@[0] > 0 {
        Some(0usize)
    } else if sheet.ready() {
        let k = choose|k: int| 0 <= k < 8 && sheet.frame_counts@[k] > 0 && forall|j: int| 0 <= j < k ==> sheet.frame_counts@[j] == 0;
        Some(k as usize)
    } else {
        None
    }
}

fn first_facing_of(sheet: &DirectionSheetSet, facing: usize) -> (r: Option<usize>)
    requires
        facing < 8,
    ensures
        r == first_facing(*sheet, facing as int),
{
    if sheet.frame_counts[facing] > 0 {
        return Some(facing);
    }
    if sheet.frame_counts[0] > 0 {
        return Some(0);
    }
    let mut k: usize = 0;
    while k < 8
        invariant
            k <= 8,
            facing < 8,
            sheet.frame_counts@[facing as int] == 0,
            sheet.frame_counts@[0] == 0,
            forall|j: int| 0 <= j < k ==> sheet.frame_counts@[j] == 0,
        decreases 8 - k,
    {
        if sheet.frame_counts[k] > 0 {
            proof {
                assert(0 <= k < 8 && sheet.frame_counts@[k as int] > 0 && forall|j: int| 0 <= j < k ==> sheet.frame_counts@[j] == 0);
                let kk = choose|kk: int| 0 <= kk < 8 && sheet.frame_counts@[kk] > 0 && forall|j: int| 0 <= j < kk ==> sheet.frame_counts@[j] == 0;
                if kk > k {
                    assert(sheet.frame_counts@[k as int] == 0);
                }
            }
            return Some(k);
        }
        k = k + 1;
    }
    None
}

/// Clip and facing a new sprite shows first: idle, then walking, then
/// running, each at the requested facing, south, or any facing with frames.
pub open spec fn spec_initial_sprite(set: LoadoutAnimationSet, facing: EightDirection) -> Option<(ClipKind, usize)> {
    let f = direction_ordinal(facing);
    match first_facing(set.idle, f) {
        Some(i) => Some((ClipKind::Idle, i)),
        None => match first_facing(set.walking, f) {
            Some(i) => Some((ClipKind::Walking, i)),
            None => match first_facing(set.running, f) {
                Some(i) => Some((ClipKind::Running, i)),
                None => None,
            },
        },
    }
}

/// Clip and facing a new sprite shows first.
pub fn initial_sprite_choice(set: &LoadoutAnimationSet, facing: EightDirection) -> (r: Option<(ClipKind, usize)>)
    ensures
        r == spec_initial_sprite(*set, facing),
{
    let f = facing.index();
    if let Some(i) = first_facing_of(&set.idle, f) {
        return Some((ClipKind::Idle, i));
    }
    if let Some(i) = first_facing_of(&set.walking, f) {
        return Some((ClipKind::Walking, i));
    }
    if let Some(i) = first_facing_of(&set.running, f) {
        return Some((ClipKind::Running, i));
    }
    None
}

} // verus!

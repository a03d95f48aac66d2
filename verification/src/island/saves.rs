//! Dev save files of island-generation recipes: file names, the save-list
//! cursor and the stage stored with each save. Reading and writing the files
//! is the caller's.

use vstd::prelude::*;
use crate::island::types::Biome;
use crate::island::recipe::{IslandGenRecipe, GenStage, stage_of};
use crate::text::{append_padded, padded_digits, str_eq};

verus! {

/// Folder of the saves, relative to the working directory.
pub const SAVE_DIR: &'static str = "dev_saves/island_gen_lab";

/// A saved recipe with its stage and save time.
#[derive(Clone, Copy, Debug)]
pub struct IslandGenSaveFile {
    pub recipe: IslandGenRecipe,
    pub stage: u8,
    pub saved_at_ms: u64,
}

impl IslandGenSaveFile {
    /// The saved stage.
    pub fn stage_enum(&self) -> (r: GenStage)
        ensures
            r == stage_of(self.stage),
    {
        GenStage::from_u8(self.stage)
    }
}

/// File-name slug of a biome.
pub open spec fn spec_biome_slug(b: Biome) -> Seq<char> {
    match b {
        Biome::Haunted => "haunted"@,
        Biome::Volcanic => "volcanic"@,
        Biome::Cliff => "cliff"@,
    }
}

/// File-name slug of a biome.
pub fn biome_slug(b: Biome) -> (r: &'static str)
    ensures
        r@ == spec_biome_slug(b),
{
    match b {
        Biome::Haunted => "haunted",
        Biome::Volcanic => "volcanic",
        Biome::Cliff => "cliff",
    }
}

/// File name of a save: the seed as 8 upper-case hex digits, both biome
/// slugs and the save counter.
pub open spec fn spec_save_file_name(recipe: IslandGenRecipe, counter: u64) -> Seq<char> {
    "island_gen_seed_"@ + padded_digits(recipe.seed as nat, 16, 8) + "_"@ + spec_biome_slug(recipe.primary_biome) + "_"@
        + spec_biome_slug(recipe.secondary_biome) + "_"@ + padded_digits(counter as nat, 10, 0) + ".json"@
}

/// File name of a save.
pub fn save_file_name(recipe: &IslandGenRecipe, counter: u64) -> (r: String)
    ensures
        r@ == spec_save_file_name(*recipe, counter),
{
    let mut s = String::new();
    s.append("island_gen_seed_");
    append_padded(&mut s, recipe.seed as u64, 16, 8);
    s.append("_");
    s.append(biome_slug(recipe.primary_biome));
    s.append("_");
    s.append(biome_slug(recipe.secondary_biome));
    s.append("_");
    append_padded(&mut s, counter, 10, 0);
    s.append(".json");
    assert(s@ =~= spec_save_file_name(*recipe, counter));
    s
}

/// The list of save files and the selected one.
#[derive(Clone, Debug)]
pub struct IslandGenSaveIndex {
    pub files: Vec<String>,
    pub cursor: usize,
}

impl Default for IslandGenSaveIndex {
    fn default() -> (r: Self)
        ensures
            r.files@.len() == 0,
            r.cursor == 0,
    {
        IslandGenSaveIndex { files: Vec::new(), cursor: 0 }
    }
}

impl IslandGenSaveIndex {
    /// Replace the list with `files` (sorted by the caller), keeping the
    /// cursor, or clamping it to the last file.
    pub fn refresh_with(&mut self, files: Vec<String>)
        ensures
            final(self).files == files,
            final(self).cursor == (if old(self).cursor >= files@.len() {
                if files@.len() == 0 { 0 } else { (files@.len() - 1) as usize }
            } else {
                old(self).cursor
            }),
    {
        self.files = files;
        if self.cursor >= self.files.len() {
            self.cursor = if self.files.len() == 0 { 0 } else { self.files.len() - 1 };
        }
    }

    /// Number of saves.
    pub fn count(&self) -> (r: usize)
        ensures
            r == self.files@.len(),
    {
        self.files.len()
    }

    /// Select the save named `path` when it is listed.
    pub fn select_path(&mut self, path: &str)
        ensures
            final(self).files == old(self).files,
            (exists|k: int| 0 <= k < old(self).files@.len() && (#[trigger] old(self).files@[k])@ == path@) ==> final(self).files@[final(self).cursor as int]@ == path@
                && forall|k: int| 0 <= k < final(self).cursor ==> (#[trigger] old(self).files@[k])@ != path@,
            !(exists|k: int| 0 <= k < old(self).files@.len() && (#[trigger] old(self).files@[k])@ == path@) ==> final(self).cursor == old(self).cursor,
    {
        let mut k: usize = 0;
        while k < self.files.len()
            invariant
                k <= self.files@.len(),
                self.files == old(self).files,
                self.cursor == old(self).cursor,
                forall|j: int| 0 <= j < k ==> (#[trigger] self.files@[j])@ != path@,
            decreases self.files@.len() - k,
        {
            if str_eq(self.files[k].as_str(), path) {
                self.cursor = k;
                return;
            }
            k = k + 1;
        }
    }

    /// Move to the next save, wrapping; false with no saves.
    pub fn cycle_next(&mut self) -> (r: bool)
        ensures
            r == (old(self).files@.len() > 0),
            final(self).files == old(self).files,
            r ==> final(self).cursor == (old(self).cursor + 1) % (old(self).files@.len() as int),
            !r ==> final(self).cursor == old(self).cursor,
    {
        if self.files.len() == 0 {
            return false;
        }
        let n = self.files.len();
        self.cursor = if self.cursor < n - 1 { self.cursor + 1 } else { (self.cursor % n + 1) % n };
        proof {
            if old(self).cursor >= n - 1 {
                let c = old(self).cursor as int;
                let m = n as int;
                assert((c % m + 1) % m == (c + 1) % m) by (nonlinear_arith)
                    requires
                        m > 0,
                ;
            } else {
                vstd::arithmetic::div_mod::lemma_small_mod((old(self).cursor + 1) as nat, n as nat);
            }
        }
        true
    }

    /// Move to the previous save, wrapping; false with no saves.
    pub fn cycle_prev(&mut self) -> (r: bool)
        ensures
            r == (old(self).files@.len() > 0),
            final(self).files == old(self).files,
            r ==> final(self).cursor == (if old(self).cursor == 0 { old(self).files@.len() - 1 } else { old(self).cursor - 1 }),
            !r ==> final(self).cursor == old(self).cursor,
    {
        if self.files.len() == 0 {
            return false;
        }
        self.cursor = if self.cursor == 0 { self.files.len() - 1 } else { self.cursor - 1 };
        true
    }
}

/// On a non-empty save list with the cursor on it, stepping to the next save
/// and back (or back and then on) returns to the same save.
pub proof fn law_save_cursor_round_trip(n: int, c: int)
    requires
        n > 0,
        0 <= c < n,
    ensures
        ({
            let next = (c + 1) % n;
            (if next == 0 { n - 1 } else { next - 1 }) == c
        }),
        ({
            let prev = if c == 0 { n - 1 } else { c - 1 };
            (prev + 1) % n == c
        }),
{
    if c + 1 < n {
        vstd::arithmetic::div_mod::lemma_small_mod((c + 1) as nat, n as nat);
    } else {
        assert((c + 1) % n == 0) by (nonlinear_arith)
            requires
                c + 1 == n,
                n > 0,
        ;
    }
    if c == 0 {
        assert((n - 1 + 1) % n == 0) by (nonlinear_arith)
            requires
                n > 0,
        ;
    } else {
        vstd::arithmetic::div_mod::lemma_small_mod(c as nat, n as nat);
    }
}

} // verus!

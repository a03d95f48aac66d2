//! The generation recipe (seed, Home Mix biome pair, beach band limits) and
//! the staged-preview selector.

use vstd::prelude::*;
use crate::island::types::Biome;

verus! {

/// Seed the lab starts from.
pub const DEFAULT_SEED: u32 = 0xB1B2025;

/// The Home Mix biome pairs, in selector order.
pub open spec fn spec_land_pairs() -> Seq<(Biome, Biome)> {
    seq![(Biome::Haunted, Biome::Volcanic), (Biome::Haunted, Biome::Cliff), (Biome::Volcanic, Biome::Cliff)]
}

/// The Home Mix biome pairs, in selector order.
pub fn land_pairs() -> (r: Vec<(Biome, Biome)>)
    ensures
        r@ == spec_land_pairs(),
{
    let r = vec![(Biome::Haunted, Biome::Volcanic), (Biome::Haunted, Biome::Cliff), (Biome::Volcanic, Biome::Cliff)];
    assert(r@ =~= spec_land_pairs());
    r
}

/// Inputs of one island generation. The world, island and tile sizes in
/// pixels are float layout values; they stay with the caller that samples
/// noise, and only the discrete choices live here.
#[derive(Clone, Copy, Debug, PartialEq, Eq, Structural)]
pub struct IslandGenRecipe {
    pub seed: u32,
    pub primary_biome: Biome,
    pub secondary_biome: Biome,
    pub beach_min_cells: u16,
    pub beach_max_cells: u16,
    /// When true, `primary_biome` occupies the west (left) half of the island.
    pub primary_west: bool,
    /// Index into the Home Mix pairs; the selector's cursor.
    pub pair_index: u8,
}

/// The recipe the lab opens with.
pub open spec fn default_recipe() -> IslandGenRecipe {
    IslandGenRecipe {
        seed: DEFAULT_SEED,
        primary_biome: Biome::Haunted,
        secondary_biome: Biome::Volcanic,
        beach_min_cells: 8,
        beach_max_cells: 24,
        primary_west: true,
        pair_index: 0,
    }
}

impl Default for IslandGenRecipe {
    fn default() -> (r: Self)
        ensures
            r == default_recipe(),
    {
        IslandGenRecipe {
            seed: DEFAULT_SEED,
            primary_biome: Biome::Haunted,
            secondary_biome: Biome::Volcanic,
            beach_min_cells: 8,
            beach_max_cells: 24,
            primary_west: true,
            pair_index: 0,
        }
    }
}

/// Index of the first Home Mix pair equal to `(a, b)` in either order.
pub open spec fn pair_position(a: Biome, b: Biome) -> Option<u8> {
    if (a == Biome::Haunted && b == Biome::Volcanic) || (a == Biome::Volcanic && b == Biome::Haunted) {
        Some(0u8)
    } else if (a == Biome::Haunted && b == Biome::Cliff) || (a == Biome::Cliff && b == Biome::Haunted) {
        Some(1u8)
    } else if (a == Biome::Volcanic && b == Biome::Cliff) || (a == Biome::Cliff && b == Biome::Volcanic) {
        Some(2u8)
    } else {
        None
    }
}

/// Cursor after `i` in a cycle of three.
pub open spec fn next_pair_index(i: u8) -> u8 {
    ((i as int + 1) % 3) as u8
}

/// Cursor before `i` in a cycle of three.
pub open spec fn prev_pair_index(i: u8) -> u8 {
    ((i as int + 2) % 3) as u8
}

impl IslandGenRecipe {
    /// The two active land biomes, in (primary, secondary) order.
    pub fn active_pair(&self) -> (r: (Biome, Biome))
        ensures
            r == (self.primary_biome, self.secondary_biome),
    {
        (self.primary_biome, self.secondary_biome)
    }

    /// Recompute `pair_index` from the biome fields, matching a pair in either
    /// order; left as it is when the fields match no pair.
    pub fn resync_pair_index(&mut self)
        ensures
            final(self).pair_index == (match pair_position(old(self).primary_biome, old(self).secondary_biome) {
                Some(i) => i,
                None => old(self).pair_index,
            }),
            *final(self) == (IslandGenRecipe { pair_index: final(self).pair_index, ..*old(self) }),
            *final(self) == resynced_recipe(*old(self)),
    {
        let pairs = land_pairs();
        let cur = (self.primary_biome, self.secondary_biome);
        let mut i: usize = 0;
        while i < pairs.len()
            invariant
                pairs@ == spec_land_pairs(),
                i <= 3,
                cur == (old(self).primary_biome, old(self).secondary_biome),
                *self == *old(self),
                forall|j: int|
                    0 <= j < i ==> !(pairs@[j] == cur || (pairs@[j].1, pairs@[j].0) == cur),
            decreases 3 - i,
        {
            let (a, b) = pairs[i];
            if (a == cur.0 && b == cur.1) || (b == cur.0 && a == cur.1) {
                self.pair_index = i as u8;
                return;
            }
            i = i + 1;
        }
    }

    /// Advance the Home Mix to the next pair and copy it into the biome fields.
    pub fn cycle_pair_next(&mut self)
        ensures
            *final(self) == synced_recipe(
                IslandGenRecipe { pair_index: next_pair_index(old(self).pair_index), ..*old(self) },
            ),
    {
        self.pair_index = ((self.pair_index as usize + 1) % 3) as u8;
        self.sync_pair_fields();
    }

    /// Step the Home Mix to the previous pair and copy it into the biome fields.
    pub fn cycle_pair_prev(&mut self)
        ensures
            *final(self) == synced_recipe(
                IslandGenRecipe { pair_index: prev_pair_index(old(self).pair_index), ..*old(self) },
            ),
    {
        self.pair_index = ((self.pair_index as usize + 3 - 1) % 3) as u8;
        self.sync_pair_fields();
    }

    /// Mirror the pair under `pair_index` into the serialized biome fields; a
    /// cursor past the last pair leaves the fields as they are.
    pub fn sync_pair_fields(&mut self)
        ensures
            *final(self) == synced_recipe(*old(self)),
    {
        let pairs = land_pairs();
        let i = self.pair_index as usize;
        if i < pairs.len() {
            let (a, b) = pairs[i];
            self.primary_biome = a;
            self.secondary_biome = b;
        }
    }
}

/// `r` with its biome fields set from the pair under its cursor.
pub open spec fn synced_recipe(r: IslandGenRecipe) -> IslandGenRecipe {
    if r.pair_index < 3 {
        IslandGenRecipe {
            primary_biome: spec_land_pairs()[r.pair_index as int].0,
            secondary_biome: spec_land_pairs()[r.pair_index as int].1,
            ..r
        }
    } else {
        r
    }
}

/// Moving the Home Mix cursor forward and then back, or back and then
/// forward, returns it to where it was.
pub proof fn law_pair_cycle_round_trip(i: u8)
    requires
        i < 3,
    ensures
        prev_pair_index(next_pair_index(i)) == i,
        next_pair_index(prev_pair_index(i)) == i,
        next_pair_index(next_pair_index(next_pair_index(i))) == i,
{
}

/// Cycling the Home Mix forward and then back restores a synced recipe
/// exactly, and after any cycle the recipe's biomes are the pair under its
/// cursor, two different biomes.
pub proof fn law_cycle_pair_restores(r: IslandGenRecipe)
    requires
        r.pair_index < 3,
        r == synced_recipe(r),
    ensures
        synced_recipe(IslandGenRecipe { pair_index: prev_pair_index(next_pair_index(r.pair_index)), ..synced_recipe(IslandGenRecipe { pair_index: next_pair_index(r.pair_index), ..r }) }) == r,
        synced_recipe(IslandGenRecipe { pair_index: next_pair_index(prev_pair_index(r.pair_index)), ..synced_recipe(IslandGenRecipe { pair_index: prev_pair_index(r.pair_index), ..r }) }) == r,
        synced_recipe(r).primary_biome != synced_recipe(r).secondary_biome,
{
}

/// The recipe restored from a save: the cursor recomputed from the biome
/// fields.
pub open spec fn resynced_recipe(r: IslandGenRecipe) -> IslandGenRecipe {
    IslandGenRecipe {
        pair_index: match pair_position(r.primary_biome, r.secondary_biome) {
            Some(i) => i,
            None => r.pair_index,
        },
        ..r
    }
}

/// Loading gives back what was saved: a recipe whose biome fields mirror its
/// Home Mix cursor (as every selector change leaves it) comes back unchanged
/// when its cursor is recomputed from the fields on load.
pub proof fn law_saved_recipe_restores(r: IslandGenRecipe)
    requires
        r.pair_index < 3,
        r == synced_recipe(r),
    ensures
        resynced_recipe(r) == r,
{
}

/// The other biome of the recipe's active pair.
pub fn other_active_biome(recipe: &IslandGenRecipe, biome: Biome) -> (r: Biome)
    ensures
        r == (if biome == recipe.primary_biome { recipe.secondary_biome } else { recipe.primary_biome }),
{
    let (a, b) = recipe.active_pair();
    if biome == a {
        b
    } else {
        a
    }
}

/// Stages of the generation pipeline, in order.
#[derive(Clone, Copy, Debug, PartialEq, Eq, Structural)]
pub enum GenStage {
    BaseWorld,
    LandMask,
    BeachBand,
    BiomeRegions,
    SurfacePatches,
    Transitions,
    FinalTerrain,
}

/// Number of a stage, from 0 to 6.
pub open spec fn stage_number(s: GenStage) -> u8 {
    match s {
        GenStage::BaseWorld => 0,
        GenStage::LandMask => 1,
        GenStage::BeachBand => 2,
        GenStage::BiomeRegions => 3,
        GenStage::SurfacePatches => 4,
        GenStage::Transitions => 5,
        GenStage::FinalTerrain => 6,
    }
}

/// Stage with number `v`; numbers past 6 give the final stage.
pub open spec fn stage_of(v: u8) -> GenStage {
    if v == 0 {
        GenStage::BaseWorld
    } else if v == 1 {
        GenStage::LandMask
    } else if v == 2 {
        GenStage::BeachBand
    } else if v == 3 {
        GenStage::BiomeRegions
    } else if v == 4 {
        GenStage::SurfacePatches
    } else if v == 5 {
        GenStage::Transitions
    } else {
        GenStage::FinalTerrain
    }
}

/// Display label of a stage.
pub open spec fn stage_label(s: GenStage) -> Seq<char> {
    match s {
        GenStage::BaseWorld => "Stage 0: Base world / ocean"@,
        GenStage::LandMask => "Stage 1: Land mask"@,
        GenStage::BeachBand => "Stage 2: Beach band"@,
        GenStage::BiomeRegions => "Stage 3: Biome regions"@,
        GenStage::SurfacePatches => "Stage 4: Surface patches"@,
        GenStage::Transitions => "Stage 5: Transition seams"@,
        GenStage::FinalTerrain => "Stage 6: Final terrain preview"@,
    }
}

impl GenStage {
    /// Stage with number `v`; numbers past 6 give the final stage.
    pub fn from_u8(v: u8) -> (r: GenStage)
        ensures
            r == stage_of(v),
    {
        match v {
            0 => GenStage::BaseWorld,
            1 => GenStage::LandMask,
            2 => GenStage::BeachBand,
            3 => GenStage::BiomeRegions,
            4 => GenStage::SurfacePatches,
            5 => GenStage::Transitions,
            _ => GenStage::FinalTerrain,
        }
    }

    /// Number of the stage.
    pub fn as_u8(self) -> (r: u8)
        ensures
            r == stage_number(self),
    {
        match self {
            GenStage::BaseWorld => 0,
            GenStage::LandMask => 1,
            GenStage::BeachBand => 2,
            GenStage::BiomeRegions => 3,
            GenStage::SurfacePatches => 4,
            GenStage::Transitions => 5,
            GenStage::FinalTerrain => 6,
        }
    }

    /// Display label.
    pub fn label(self) -> (r: &'static str)
        ensures
            r@ == stage_label(self),
    {
        match self {
            GenStage::BaseWorld => "Stage 0: Base world / ocean",
            GenStage::LandMask => "Stage 1: Land mask",
            GenStage::BeachBand => "Stage 2: Beach band",
            GenStage::BiomeRegions => "Stage 3: Biome regions",
            GenStage::SurfacePatches => "Stage 4: Surface patches",
            GenStage::Transitions => "Stage 5: Transition seams",
            GenStage::FinalTerrain => "Stage 6: Final terrain preview",
        }
    }
}

/// A stage's number leads back to the stage, and every number up to 6 is the
/// number of its stage.
pub proof fn law_stage_number_round_trip(s: GenStage, v: u8)
    ensures
        stage_of(stage_number(s)) == s,
        v <= 6 ==> stage_number(stage_of(v)) == v,
        stage_number(stage_of(v)) <= 6,
{
}

} // verus!

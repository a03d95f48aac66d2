//! Surface tile tables: slugs, runtime tile paths, per-biome pools and the
//! surface choices of each terrain role.

use vstd::prelude::*;
use crate::island::types::{Biome, SurfaceId, SurfaceTier, TerrainRole};

verus! {

/// Stable snake-case name of a surface.
pub open spec fn spec_surface_slug(s: SurfaceId) -> Seq<char> {
    match s {
        SurfaceId::OceanDeep => "ocean_deep"@,
        SurfaceId::OceanShallow => "ocean_shallow"@,
        SurfaceId::VolcanicBlackSand => "volcanic_black_sand"@,
        SurfaceId::VolcanicAshDustedSand => "volcanic_ash_dusted_sand"@,
        SurfaceId::VolcanicCharredDirt => "volcanic_charred_dirt"@,
        SurfaceId::VolcanicAshSoil => "volcanic_ash_soil"@,
        SurfaceId::VolcanicAshSoilCracked => "volcanic_ash_soil_cracked"@,
        SurfaceId::VolcanicBasalt => "volcanic_basalt"@,
        SurfaceId::VolcanicSulfurStain => "volcanic_sulfur_stain"@,
        SurfaceId::VolcanicLavaCrack => "volcanic_lava_crack"@,
        SurfaceId::VolcanicCoolingLava => "volcanic_cooling_lava"@,
        SurfaceId::VolcanicEmberGrit => "volcanic_ember_grit"@,
        SurfaceId::VolcanicBasaltCracked => "volcanic_basalt_cracked"@,
        SurfaceId::VolcanicAshGrassSparse => "volcanic_ash_grass_sparse"@,
        SurfaceId::VolcanicObsidianShard => "volcanic_obsidian_shard"@,
        SurfaceId::VolcanicForgeGround => "volcanic_forge_ground"@,
        SurfaceId::VolcanicSteamScarred => "volcanic_steam_scarred"@,
        SurfaceId::VolcanicRedHotStone => "volcanic_red_hot_stone"@,
        SurfaceId::HauntedWetSoil => "haunted_wet_soil"@,
        SurfaceId::HauntedSaltSoil => "haunted_salt_soil"@,
        SurfaceId::HauntedBlueClay => "haunted_blue_clay"@,
        SurfaceId::HauntedPaleMud => "haunted_pale_mud"@,
        SurfaceId::HauntedBuildableClearing => "haunted_buildable_clearing"@,
        SurfaceId::HauntedMoonGrass => "haunted_moon_grass"@,
        SurfaceId::HauntedMoonGrassDark => "haunted_moon_grass_dark"@,
        SurfaceId::HauntedMoonGrassPale => "haunted_moon_grass_pale"@,
        SurfaceId::HauntedMossSoil => "haunted_moss_soil"@,
        SurfaceId::HauntedRootSoil => "haunted_root_soil"@,
        SurfaceId::HauntedLeafLitter => "haunted_leaf_litter"@,
        SurfaceId::HauntedPaleStoneMix => "haunted_pale_stone_mix"@,
        SurfaceId::HauntedOldPath => "haunted_old_path"@,
        SurfaceId::HauntedSunkenGrass => "haunted_sunken_grass"@,
        SurfaceId::HauntedShallowPuddle => "haunted_shallow_puddle"@,
        SurfaceId::VillageWorkyardDirt => "village_workyard_dirt"@,
        SurfaceId::VillageDirtSandyMix => "village_dirt_sandy_mix"@,
        SurfaceId::VillageDirtStonyMix => "village_dirt_stony_mix"@,
        SurfaceId::VillageDirtClean => "village_dirt_clean"@,
        SurfaceId::VillageStorageGround => "village_storage_ground"@,
        SurfaceId::VillageTarStainedDirt => "village_tar_stained_dirt"@,
        SurfaceId::VillageSawdustDirt => "village_sawdust_dirt"@,
        SurfaceId::VillageDirtDry => "village_dirt_dry"@,
        SurfaceId::VillageFarmSoilOld => "village_farm_soil_old"@,
        SurfaceId::VillageClearingGround => "village_clearing_ground"@,
        SurfaceId::VillageAshDirt => "village_ash_dirt"@,
        SurfaceId::VillageDirtGrassMix => "village_dirt_grass_mix"@,
        SurfaceId::VillageCompostSoil => "village_compost_soil"@,
        SurfaceId::VillageFarmSoilFresh => "village_farm_soil_fresh"@,
        SurfaceId::VillageOldPathDirt => "village_old_path_dirt"@,
        SurfaceId::VillageDirtDamp => "village_dirt_damp"@,
        SurfaceId::CliffGrassTop => "cliff_grass_top"@,
        SurfaceId::CliffStoneTop => "cliff_stone_top"@,
        SurfaceId::CliffDirtTop => "cliff_dirt_top"@,
        SurfaceId::CliffMossyStone => "cliff_mossy_stone"@,
        SurfaceId::CliffCrackedStone => "cliff_cracked_stone"@,
        SurfaceId::CliffDarkSlate => "cliff_dark_slate"@,
        SurfaceId::CliffDryScrub => "cliff_dry_scrub"@,
        SurfaceId::CliffGravelTop => "cliff_gravel_top"@,
        SurfaceId::CliffLimestone => "cliff_limestone"@,
        SurfaceId::CliffOldPath => "cliff_old_path"@,
        SurfaceId::CliffRootCrack => "cliff_root_crack"@,
        SurfaceId::CliffRuinGround => "cliff_ruin_ground"@,
        SurfaceId::CliffSandyStone => "cliff_sandy_stone"@,
        SurfaceId::CliffShadowedGrass => "cliff_shadowed_grass"@,
        SurfaceId::CliffWindburnGrass => "cliff_windburn_grass"@,
        SurfaceId::CliffBuildablePlateau => "cliff_buildable_plateau"@,
    }
}

/// Stable snake-case name of a surface.
pub fn surface_slug(s: SurfaceId) -> (r: &'static str)
    ensures
        r@ == spec_surface_slug(s),
{
    match s {
        SurfaceId::OceanDeep => "ocean_deep",
        SurfaceId::OceanShallow => "ocean_shallow",
        SurfaceId::VolcanicBlackSand => "volcanic_black_sand",
        SurfaceId::VolcanicAshDustedSand => "volcanic_ash_dusted_sand",
        SurfaceId::VolcanicCharredDirt => "volcanic_charred_dirt",
        SurfaceId::VolcanicAshSoil => "volcanic_ash_soil",
        SurfaceId::VolcanicAshSoilCracked => "volcanic_ash_soil_cracked",
        SurfaceId::VolcanicBasalt => "volcanic_basalt",
        SurfaceId::VolcanicSulfurStain => "volcanic_sulfur_stain",
        SurfaceId::VolcanicLavaCrack => "volcanic_lava_crack",
        SurfaceId::VolcanicCoolingLava => "volcanic_cooling_lava",
        SurfaceId::VolcanicEmberGrit => "volcanic_ember_grit",
        SurfaceId::VolcanicBasaltCracked => "volcanic_basalt_cracked",
        SurfaceId::VolcanicAshGrassSparse => "volcanic_ash_grass_sparse",
        SurfaceId::VolcanicObsidianShard => "volcanic_obsidian_shard",
        SurfaceId::VolcanicForgeGround => "volcanic_forge_ground",
        SurfaceId::VolcanicSteamScarred => "volcanic_steam_scarred",
        SurfaceId::VolcanicRedHotStone => "volcanic_red_hot_stone",
        SurfaceId::HauntedWetSoil => "haunted_wet_soil",
        SurfaceId::HauntedSaltSoil => "haunted_salt_soil",
        SurfaceId::HauntedBlueClay => "haunted_blue_clay",
        SurfaceId::HauntedPaleMud => "haunted_pale_mud",
        SurfaceId::HauntedBuildableClearing => "haunted_buildable_clearing",
        SurfaceId::HauntedMoonGrass => "haunted_moon_grass",
        SurfaceId::HauntedMoonGrassDark => "haunted_moon_grass_dark",
        SurfaceId::HauntedMoonGrassPale => "haunted_moon_grass_pale",
        SurfaceId::HauntedMossSoil => "haunted_moss_soil",
        SurfaceId::HauntedRootSoil => "haunted_root_soil",
        SurfaceId::HauntedLeafLitter => "haunted_leaf_litter",
        SurfaceId::HauntedPaleStoneMix => "haunted_pale_stone_mix",
        SurfaceId::HauntedOldPath => "haunted_old_path",
        SurfaceId::HauntedSunkenGrass => "haunted_sunken_grass",
        SurfaceId::HauntedShallowPuddle => "haunted_shallow_puddle",
        SurfaceId::VillageWorkyardDirt => "village_workyard_dirt",
        SurfaceId::VillageDirtSandyMix => "village_dirt_sandy_mix",
        SurfaceId::VillageDirtStonyMix => "village_dirt_stony_mix",
        SurfaceId::VillageDirtClean => "village_dirt_clean",
        SurfaceId::VillageStorageGround => "village_storage_ground",
        SurfaceId::VillageTarStainedDirt => "village_tar_stained_dirt",
        SurfaceId::VillageSawdustDirt => "village_sawdust_dirt",
        SurfaceId::VillageDirtDry => "village_dirt_dry",
        SurfaceId::VillageFarmSoilOld => "village_farm_soil_old",
        SurfaceId::VillageClearingGround => "village_clearing_ground",
        SurfaceId::VillageAshDirt => "village_ash_dirt",
        SurfaceId::VillageDirtGrassMix => "village_dirt_grass_mix",
        SurfaceId::VillageCompostSoil => "village_compost_soil",
        SurfaceId::VillageFarmSoilFresh => "village_farm_soil_fresh",
        SurfaceId::VillageOldPathDirt => "village_old_path_dirt",
        SurfaceId::VillageDirtDamp => "village_dirt_damp",
        SurfaceId::CliffGrassTop => "cliff_grass_top",
        SurfaceId::CliffStoneTop => "cliff_stone_top",
        SurfaceId::CliffDirtTop => "cliff_dirt_top",
        SurfaceId::CliffMossyStone => "cliff_mossy_stone",
        SurfaceId::CliffCrackedStone => "cliff_cracked_stone",
        SurfaceId::CliffDarkSlate => "cliff_dark_slate",
        SurfaceId::CliffDryScrub => "cliff_dry_scrub",
        SurfaceId::CliffGravelTop => "cliff_gravel_top",
        SurfaceId::CliffLimestone => "cliff_limestone",
        SurfaceId::CliffOldPath => "cliff_old_path",
        SurfaceId::CliffRootCrack => "cliff_root_crack",
        SurfaceId::CliffRuinGround => "cliff_ruin_ground",
        SurfaceId::CliffSandyStone => "cliff_sandy_stone",
        SurfaceId::CliffShadowedGrass => "cliff_shadowed_grass",
        SurfaceId::CliffWindburnGrass => "cliff_windburn_grass",
        SurfaceId::CliffBuildablePlateau => "cliff_buildable_plateau",
    }
}

/// Position of a surface's slug among all slugs sorted in ascending byte
/// order (ties between surfaces are broken by this order).
pub open spec fn spec_slug_rank(s: SurfaceId) -> int {
    match s {
        SurfaceId::OceanDeep => 31,
        SurfaceId::OceanShallow => 32,
        SurfaceId::VolcanicBlackSand => 55,
        SurfaceId::VolcanicAshDustedSand => 49,
        SurfaceId::VolcanicCharredDirt => 56,
        SurfaceId::VolcanicAshSoil => 51,
        SurfaceId::VolcanicAshSoilCracked => 52,
        SurfaceId::VolcanicBasalt => 53,
        SurfaceId::VolcanicSulfurStain => 64,
        SurfaceId::VolcanicLavaCrack => 60,
        SurfaceId::VolcanicCoolingLava => 57,
        SurfaceId::VolcanicEmberGrit => 58,
        SurfaceId::VolcanicBasaltCracked => 54,
        SurfaceId::VolcanicAshGrassSparse => 50,
        SurfaceId::VolcanicObsidianShard => 61,
        SurfaceId::VolcanicForgeGround => 59,
        SurfaceId::VolcanicSteamScarred => 63,
        SurfaceId::VolcanicRedHotStone => 62,
        SurfaceId::HauntedWetSoil => 30,
        SurfaceId::HauntedSaltSoil => 27,
        SurfaceId::HauntedBlueClay => 16,
        SurfaceId::HauntedPaleMud => 24,
        SurfaceId::HauntedBuildableClearing => 17,
        SurfaceId::HauntedMoonGrass => 19,
        SurfaceId::HauntedMoonGrassDark => 20,
        SurfaceId::HauntedMoonGrassPale => 21,
        SurfaceId::HauntedMossSoil => 22,
        SurfaceId::HauntedRootSoil => 26,
        SurfaceId::HauntedLeafLitter => 18,
        SurfaceId::HauntedPaleStoneMix => 25,
        SurfaceId::HauntedOldPath => 23,
        SurfaceId::HauntedSunkenGrass => 29,
        SurfaceId::HauntedShallowPuddle => 28,
        SurfaceId::VillageWorkyardDirt => 48,
        SurfaceId::VillageDirtSandyMix => 40,
        SurfaceId::VillageDirtStonyMix => 41,
        SurfaceId::VillageDirtClean => 36,
        SurfaceId::VillageStorageGround => 46,
        SurfaceId::VillageTarStainedDirt => 47,
        SurfaceId::VillageSawdustDirt => 45,
        SurfaceId::VillageDirtDry => 38,
        SurfaceId::VillageFarmSoilOld => 43,
        SurfaceId::VillageClearingGround => 34,
        SurfaceId::VillageAshDirt => 33,
        SurfaceId::VillageDirtGrassMix => 39,
        SurfaceId::VillageCompostSoil => 35,
        SurfaceId::VillageFarmSoilFresh => 42,
        SurfaceId::VillageOldPathDirt => 44,
        SurfaceId::VillageDirtDamp => 37,
        SurfaceId::CliffGrassTop => 5,
        SurfaceId::CliffStoneTop => 14,
        SurfaceId::CliffDirtTop => 3,
        SurfaceId::CliffMossyStone => 8,
        SurfaceId::CliffCrackedStone => 1,
        SurfaceId::CliffDarkSlate => 2,
        SurfaceId::CliffDryScrub => 4,
        SurfaceId::CliffGravelTop => 6,
        SurfaceId::CliffLimestone => 7,
        SurfaceId::CliffOldPath => 9,
        SurfaceId::CliffRootCrack => 10,
        SurfaceId::CliffRuinGround => 11,
        SurfaceId::CliffSandyStone => 12,
        SurfaceId::CliffShadowedGrass => 13,
        SurfaceId::CliffWindburnGrass => 15,
        SurfaceId::CliffBuildablePlateau => 0,
    }
}

/// The surface with slug rank `r`.
pub open spec fn surface_of_rank(r: int) -> SurfaceId {
    if r == 31 {
        SurfaceId::OceanDeep
    } else if r == 32 {
        SurfaceId::OceanShallow
    } else if r == 55 {
        SurfaceId::VolcanicBlackSand
    } else if r == 49 {
        SurfaceId::VolcanicAshDustedSand
    } else if r == 56 {
        SurfaceId::VolcanicCharredDirt
    } else if r == 51 {
        SurfaceId::VolcanicAshSoil
    } else if r == 52 {
        SurfaceId::VolcanicAshSoilCracked
    } else if r == 53 {
        SurfaceId::VolcanicBasalt
    } else if r == 64 {
        SurfaceId::VolcanicSulfurStain
    } else if r == 60 {
        SurfaceId::VolcanicLavaCrack
    } else if r == 57 {
        SurfaceId::VolcanicCoolingLava
    } else if r == 58 {
        SurfaceId::VolcanicEmberGrit
    } else if r == 54 {
        SurfaceId::VolcanicBasaltCracked
    } else if r == 50 {
        SurfaceId::VolcanicAshGrassSparse
    } else if r == 61 {
        SurfaceId::VolcanicObsidianShard
    } else if r == 59 {
        SurfaceId::VolcanicForgeGround
    } else if r == 63 {
        SurfaceId::VolcanicSteamScarred
    } else if r == 62 {
        SurfaceId::VolcanicRedHotStone
    } else if r == 30 {
        SurfaceId::HauntedWetSoil
    } else if r == 27 {
        SurfaceId::HauntedSaltSoil
    } else if r == 16 {
        SurfaceId::HauntedBlueClay
    } else if r == 24 {
        SurfaceId::HauntedPaleMud
    } else if r == 17 {
        SurfaceId::HauntedBuildableClearing
    } else if r == 19 {
        SurfaceId::HauntedMoonGrass
    } else if r == 20 {
        SurfaceId::HauntedMoonGrassDark
    } else if r == 21 {
        SurfaceId::HauntedMoonGrassPale
    } else if r == 22 {
        SurfaceId::HauntedMossSoil
    } else if r == 26 {
        SurfaceId::HauntedRootSoil
    } else if r == 18 {
        SurfaceId::HauntedLeafLitter
    } else if r == 25 {
        SurfaceId::HauntedPaleStoneMix
    } else if r == 23 {
        SurfaceId::HauntedOldPath
    } else if r == 29 {
        SurfaceId::HauntedSunkenGrass
    } else if r == 28 {
        SurfaceId::HauntedShallowPuddle
    } else if r == 48 {
        SurfaceId::VillageWorkyardDirt
    } else if r == 40 {
        SurfaceId::VillageDirtSandyMix
    } else if r == 41 {
        SurfaceId::VillageDirtStonyMix
    } else if r == 36 {
        SurfaceId::VillageDirtClean
    } else if r == 46 {
        SurfaceId::VillageStorageGround
    } else if r == 47 {
        SurfaceId::VillageTarStainedDirt
    } else if r == 45 {
        SurfaceId::VillageSawdustDirt
    } else if r == 38 {
        SurfaceId::VillageDirtDry
    } else if r == 43 {
        SurfaceId::VillageFarmSoilOld
    } else if r == 34 {
        SurfaceId::VillageClearingGround
    } else if r == 33 {
        SurfaceId::VillageAshDirt
    } else if r == 39 {
        SurfaceId::VillageDirtGrassMix
    } else if r == 35 {
        SurfaceId::VillageCompostSoil
    } else if r == 42 {
        SurfaceId::VillageFarmSoilFresh
    } else if r == 44 {
        SurfaceId::VillageOldPathDirt
    } else if r == 37 {
        SurfaceId::VillageDirtDamp
    } else if r == 5 {
        SurfaceId::CliffGrassTop
    } else if r == 14 {
        SurfaceId::CliffStoneTop
    } else if r == 3 {
        SurfaceId::CliffDirtTop
    } else if r == 8 {
        SurfaceId::CliffMossyStone
    } else if r == 1 {
        SurfaceId::CliffCrackedStone
    } else if r == 2 {
        SurfaceId::CliffDarkSlate
    } else if r == 4 {
        SurfaceId::CliffDryScrub
    } else if r == 6 {
        SurfaceId::CliffGravelTop
    } else if r == 7 {
        SurfaceId::CliffLimestone
    } else if r == 9 {
        SurfaceId::CliffOldPath
    } else if r == 10 {
        SurfaceId::CliffRootCrack
    } else if r == 11 {
        SurfaceId::CliffRuinGround
    } else if r == 12 {
        SurfaceId::CliffSandyStone
    } else if r == 13 {
        SurfaceId::CliffShadowedGrass
    } else if r == 15 {
        SurfaceId::CliffWindburnGrass
    } else {
        SurfaceId::CliffBuildablePlateau
    }
}

/// Distinct surfaces have distinct slug ranks.
pub proof fn lemma_slug_rank_injective(s: SurfaceId)
    ensures
        surface_of_rank(spec_slug_rank(s)) == s,
{
}

/// Position of a surface's slug among all slugs in ascending byte order.
pub fn slug_rank(s: SurfaceId) -> (r: u8)
    ensures
        r == spec_slug_rank(s),
{
    match s {
        SurfaceId::OceanDeep => 31,
        SurfaceId::OceanShallow => 32,
        SurfaceId::VolcanicBlackSand => 55,
        SurfaceId::VolcanicAshDustedSand => 49,
        SurfaceId::VolcanicCharredDirt => 56,
        SurfaceId::VolcanicAshSoil => 51,
        SurfaceId::VolcanicAshSoilCracked => 52,
        SurfaceId::VolcanicBasalt => 53,
        SurfaceId::VolcanicSulfurStain => 64,
        SurfaceId::VolcanicLavaCrack => 60,
        SurfaceId::VolcanicCoolingLava => 57,
        SurfaceId::VolcanicEmberGrit => 58,
        SurfaceId::VolcanicBasaltCracked => 54,
        SurfaceId::VolcanicAshGrassSparse => 50,
        SurfaceId::VolcanicObsidianShard => 61,
        SurfaceId::VolcanicForgeGround => 59,
        SurfaceId::VolcanicSteamScarred => 63,
        SurfaceId::VolcanicRedHotStone => 62,
        SurfaceId::HauntedWetSoil => 30,
        SurfaceId::HauntedSaltSoil => 27,
        SurfaceId::HauntedBlueClay => 16,
        SurfaceId::HauntedPaleMud => 24,
        SurfaceId::HauntedBuildableClearing => 17,
        SurfaceId::HauntedMoonGrass => 19,
        SurfaceId::HauntedMoonGrassDark => 20,
        SurfaceId::HauntedMoonGrassPale => 21,
        SurfaceId::HauntedMossSoil => 22,
        SurfaceId::HauntedRootSoil => 26,
        SurfaceId::HauntedLeafLitter => 18,
        SurfaceId::HauntedPaleStoneMix => 25,
        SurfaceId::HauntedOldPath => 23,
        SurfaceId::HauntedSunkenGrass => 29,
        SurfaceId::HauntedShallowPuddle => 28,
        SurfaceId::VillageWorkyardDirt => 48,
        SurfaceId::VillageDirtSandyMix => 40,
        SurfaceId::VillageDirtStonyMix => 41,
        SurfaceId::VillageDirtClean => 36,
        SurfaceId::VillageStorageGround => 46,
        SurfaceId::VillageTarStainedDirt => 47,
        SurfaceId::VillageSawdustDirt => 45,
        SurfaceId::VillageDirtDry => 38,
        SurfaceId::VillageFarmSoilOld => 43,
        SurfaceId::VillageClearingGround => 34,
        SurfaceId::VillageAshDirt => 33,
        SurfaceId::VillageDirtGrassMix => 39,
        SurfaceId::VillageCompostSoil => 35,
        SurfaceId::VillageFarmSoilFresh => 42,
        SurfaceId::VillageOldPathDirt => 44,
        SurfaceId::VillageDirtDamp => 37,
        SurfaceId::CliffGrassTop => 5,
        SurfaceId::CliffStoneTop => 14,
        SurfaceId::CliffDirtTop => 3,
        SurfaceId::CliffMossyStone => 8,
        SurfaceId::CliffCrackedStone => 1,
        SurfaceId::CliffDarkSlate => 2,
        SurfaceId::CliffDryScrub => 4,
        SurfaceId::CliffGravelTop => 6,
        SurfaceId::CliffLimestone => 7,
        SurfaceId::CliffOldPath => 9,
        SurfaceId::CliffRootCrack => 10,
        SurfaceId::CliffRuinGround => 11,
        SurfaceId::CliffSandyStone => 12,
        SurfaceId::CliffShadowedGrass => 13,
        SurfaceId::CliffWindburnGrass => 15,
        SurfaceId::CliffBuildablePlateau => 0,
    }
}

/// Runtime tile path of a surface (relative to `assets/`), where art exists.
pub open spec fn spec_surface_tile_path(s: SurfaceId) -> Option<Seq<char>> {
    match s {
        SurfaceId::OceanDeep => None,
        SurfaceId::OceanShallow => None,
        SurfaceId::VolcanicBlackSand => Some("runtime/tilesets/volcanic/volcanic_black_sand_base_v01.png"@),
        SurfaceId::VolcanicAshDustedSand => Some("runtime/tilesets/volcanic/volcanic_black_sand_ash_dusted_base_v01.png"@),
        SurfaceId::VolcanicCharredDirt => Some("runtime/tilesets/volcanic/volcanic_charred_dirt_base_v01.png"@),
        SurfaceId::VolcanicAshSoil => Some("runtime/tilesets/volcanic/volcanic_ash_soil_base_v01.png"@),
        SurfaceId::VolcanicAshSoilCracked => Some("runtime/tilesets/volcanic/volcanic_ash_soil_cracked_base_v01.png"@),
        SurfaceId::VolcanicBasalt => Some("runtime/tilesets/volcanic/volcanic_basalt_base_v01.png"@),
        SurfaceId::VolcanicSulfurStain => Some("runtime/tilesets/volcanic/volcanic_sulfur_stain_base_v01.png"@),
        SurfaceId::VolcanicLavaCrack => Some("runtime/tilesets/volcanic/volcanic_lava_crack_base_v01.png"@),
        SurfaceId::VolcanicCoolingLava => Some("runtime/tilesets/volcanic/volcanic_cooling_lava_base_v01.png"@),
        SurfaceId::VolcanicEmberGrit => Some("runtime/tilesets/volcanic/volcanic_ember_grit_base_v01.png"@),
        SurfaceId::VolcanicBasaltCracked => Some("runtime/tilesets/volcanic/volcanic_basalt_cracked_base_v01.png"@),
        SurfaceId::VolcanicAshGrassSparse => Some("runtime/tilesets/volcanic/volcanic_ash_grass_sparse_base_v01.png"@),
        SurfaceId::VolcanicObsidianShard => Some("runtime/tilesets/volcanic/volcanic_obsidian_shard_base_v01.png"@),
        SurfaceId::VolcanicForgeGround => Some("runtime/tilesets/volcanic/volcanic_forge_ground_base_v01.png"@),
        SurfaceId::VolcanicSteamScarred => Some("runtime/tilesets/volcanic/volcanic_steam_scarred_base_v01.png"@),
        SurfaceId::VolcanicRedHotStone => Some("runtime/tilesets/volcanic/volcanic_red_hot_stone_base_v01.png"@),
        SurfaceId::HauntedWetSoil => Some("runtime/tilesets/haunted/haunted_wet_soil_base_v01.png"@),
        SurfaceId::HauntedSaltSoil => Some("runtime/tilesets/haunted/haunted_salt_stained_soil_base_v01.png"@),
        SurfaceId::HauntedBlueClay => Some("runtime/tilesets/haunted/haunted_blue_clay_base_v01.png"@),
        SurfaceId::HauntedPaleMud => Some("runtime/tilesets/haunted/haunted_pale_mud_base_v01.png"@),
        SurfaceId::HauntedBuildableClearing => Some("runtime/tilesets/haunted/haunted_buildable_clearing_base_v01.png"@),
        SurfaceId::HauntedMoonGrass => Some("runtime/tilesets/haunted/haunted_moon_grass_base_v01.png"@),
        SurfaceId::HauntedMoonGrassDark => Some("runtime/tilesets/haunted/haunted_moon_grass_dark_base_v01.png"@),
        SurfaceId::HauntedMoonGrassPale => Some("runtime/tilesets/haunted/haunted_moon_grass_pale_base_v01.png"@),
        SurfaceId::HauntedMossSoil => Some("runtime/tilesets/haunted/haunted_moss_soil_base_v01.png"@),
        SurfaceId::HauntedRootSoil => Some("runtime/tilesets/haunted/haunted_root_soil_base_v01.png"@),
        SurfaceId::HauntedLeafLitter => Some("runtime/tilesets/haunted/haunted_leaf_litter_base_v01.png"@),
        SurfaceId::HauntedPaleStoneMix => Some("runtime/tilesets/haunted/haunted_pale_stone_mix_base_v01.png"@),
        SurfaceId::HauntedOldPath => Some("runtime/tilesets/haunted/haunted_old_path_base_v01.png"@),
        SurfaceId::HauntedSunkenGrass => Some("runtime/tilesets/haunted/haunted_sunken_grass_base_v01.png"@),
        SurfaceId::HauntedShallowPuddle => Some("runtime/tilesets/haunted/haunted_shallow_puddle_base_v01.png"@),
        SurfaceId::VillageWorkyardDirt => Some("runtime/tilesets/village/village_workyard_dirt_base_v01.png"@),
        SurfaceId::VillageDirtSandyMix => Some("runtime/tilesets/village/village_dirt_sandy_mix_base_v01.png"@),
        SurfaceId::VillageDirtStonyMix => Some("runtime/tilesets/village/village_dirt_stony_mix_base_v01.png"@),
        SurfaceId::VillageDirtClean => Some("runtime/tilesets/village/village_dirt_base_clean_v01.png"@),
        SurfaceId::VillageStorageGround => Some("runtime/tilesets/village/village_storage_ground_base_v01.png"@),
        SurfaceId::VillageTarStainedDirt => Some("runtime/tilesets/village/village_tar_stained_dirt_base_v01.png"@),
        SurfaceId::VillageSawdustDirt => Some("runtime/tilesets/village/village_sawdust_dirt_base_v01.png"@),
        SurfaceId::VillageDirtDry => Some("runtime/tilesets/village/village_dirt_base_dry_v01.png"@),
        SurfaceId::VillageFarmSoilOld => Some("runtime/tilesets/village/village_farm_soil_base_old_v01.png"@),
        SurfaceId::VillageClearingGround => Some("runtime/tilesets/village/village_clearing_ground_base_v01.png"@),
        SurfaceId::VillageAshDirt => Some("runtime/tilesets/village/village_ash_dirt_base_v01.png"@),
        SurfaceId::VillageDirtGrassMix => Some("runtime/tilesets/village/village_dirt_grass_mix_base_v01.png"@),
        SurfaceId::VillageCompostSoil => Some("runtime/tilesets/village/village_compost_soil_base_v01.png"@),
        SurfaceId::VillageFarmSoilFresh => Some("runtime/tilesets/village/village_farm_soil_base_fresh_v01.png"@),
        SurfaceId::VillageOldPathDirt => Some("runtime/tilesets/village/village_old_path_dirt_base_v01.png"@),
        SurfaceId::VillageDirtDamp => Some("runtime/tilesets/village/village_dirt_base_damp_v01.png"@),
        SurfaceId::CliffGrassTop => Some("runtime/tilesets/cliff_highland/cliff_highland_grass_top_base_v01.png"@),
        SurfaceId::CliffStoneTop => Some("runtime/tilesets/cliff_highland/cliff_highland_stone_top_base_v01.png"@),
        SurfaceId::CliffDirtTop => Some("runtime/tilesets/cliff_highland/cliff_highland_dirt_top_base_v01.png"@),
        SurfaceId::CliffMossyStone => Some("runtime/tilesets/cliff_highland/cliff_highland_mossy_stone_base_v01.png"@),
        SurfaceId::CliffCrackedStone => Some("runtime/tilesets/cliff_highland/cliff_highland_cracked_stone_base_v01.png"@),
        SurfaceId::CliffDarkSlate => Some("runtime/tilesets/cliff_highland/cliff_highland_dark_slate_base_v01.png"@),
        SurfaceId::CliffDryScrub => Some("runtime/tilesets/cliff_highland/cliff_highland_dry_scrub_base_v01.png"@),
        SurfaceId::CliffGravelTop => Some("runtime/tilesets/cliff_highland/cliff_highland_gravel_top_base_v01.png"@),
        SurfaceId::CliffLimestone => Some("runtime/tilesets/cliff_highland/cliff_highland_limestone_base_v01.png"@),
        SurfaceId::CliffOldPath => Some("runtime/tilesets/cliff_highland/cliff_highland_old_path_base_v01.png"@),
        SurfaceId::CliffRootCrack => Some("runtime/tilesets/cliff_highland/cliff_highland_root_crack_base_v01.png"@),
        SurfaceId::CliffRuinGround => Some("runtime/tilesets/cliff_highland/cliff_highland_ruin_ground_base_v01.png"@),
        SurfaceId::CliffSandyStone => Some("runtime/tilesets/cliff_highland/cliff_highland_sandy_stone_base_v01.png"@),
        SurfaceId::CliffShadowedGrass => Some("runtime/tilesets/cliff_highland/cliff_highland_shadowed_grass_base_v01.png"@),
        SurfaceId::CliffWindburnGrass => Some("runtime/tilesets/cliff_highland/cliff_highland_windburn_grass_base_v01.png"@),
        SurfaceId::CliffBuildablePlateau => Some("runtime/tilesets/cliff_highland/cliff_highland_buildable_plateau_base_v01.png"@),
    }
}

/// Map a surface id to a runtime tile path when art exists.
pub fn surface_tile_path(s: SurfaceId) -> (r: Option<&'static str>)
    ensures
        match r {
            Some(p) => spec_surface_tile_path(s) == Some(p@),
            None => spec_surface_tile_path(s) is None,
        },
{
    match s {
        SurfaceId::OceanDeep => None,
        SurfaceId::OceanShallow => None,
        SurfaceId::VolcanicBlackSand => Some("runtime/tilesets/volcanic/volcanic_black_sand_base_v01.png"),
        SurfaceId::VolcanicAshDustedSand => Some("runtime/tilesets/volcanic/volcanic_black_sand_ash_dusted_base_v01.png"),
        SurfaceId::VolcanicCharredDirt => Some("runtime/tilesets/volcanic/volcanic_charred_dirt_base_v01.png"),
        SurfaceId::VolcanicAshSoil => Some("runtime/tilesets/volcanic/volcanic_ash_soil_base_v01.png"),
        SurfaceId::VolcanicAshSoilCracked => Some("runtime/tilesets/volcanic/volcanic_ash_soil_cracked_base_v01.png"),
        SurfaceId::VolcanicBasalt => Some("runtime/tilesets/volcanic/volcanic_basalt_base_v01.png"),
        SurfaceId::VolcanicSulfurStain => Some("runtime/tilesets/volcanic/volcanic_sulfur_stain_base_v01.png"),
        SurfaceId::VolcanicLavaCrack => Some("runtime/tilesets/volcanic/volcanic_lava_crack_base_v01.png"),
        SurfaceId::VolcanicCoolingLava => Some("runtime/tilesets/volcanic/volcanic_cooling_lava_base_v01.png"),
        SurfaceId::VolcanicEmberGrit => Some("runtime/tilesets/volcanic/volcanic_ember_grit_base_v01.png"),
        SurfaceId::VolcanicBasaltCracked => Some("runtime/tilesets/volcanic/volcanic_basalt_cracked_base_v01.png"),
        SurfaceId::VolcanicAshGrassSparse => Some("runtime/tilesets/volcanic/volcanic_ash_grass_sparse_base_v01.png"),
        SurfaceId::VolcanicObsidianShard => Some("runtime/tilesets/volcanic/volcanic_obsidian_shard_base_v01.png"),
        SurfaceId::VolcanicForgeGround => Some("runtime/tilesets/volcanic/volcanic_forge_ground_base_v01.png"),
        SurfaceId::VolcanicSteamScarred => Some("runtime/tilesets/volcanic/volcanic_steam_scarred_base_v01.png"),
        SurfaceId::VolcanicRedHotStone => Some("runtime/tilesets/volcanic/volcanic_red_hot_stone_base_v01.png"),
        SurfaceId::HauntedWetSoil => Some("runtime/tilesets/haunted/haunted_wet_soil_base_v01.png"),
        SurfaceId::HauntedSaltSoil => Some("runtime/tilesets/haunted/haunted_salt_stained_soil_base_v01.png"),
        SurfaceId::HauntedBlueClay => Some("runtime/tilesets/haunted/haunted_blue_clay_base_v01.png"),
        SurfaceId::HauntedPaleMud => Some("runtime/tilesets/haunted/haunted_pale_mud_base_v01.png"),
        SurfaceId::HauntedBuildableClearing => Some("runtime/tilesets/haunted/haunted_buildable_clearing_base_v01.png"),
        SurfaceId::HauntedMoonGrass => Some("runtime/tilesets/haunted/haunted_moon_grass_base_v01.png"),
        SurfaceId::HauntedMoonGrassDark => Some("runtime/tilesets/haunted/haunted_moon_grass_dark_base_v01.png"),
        SurfaceId::HauntedMoonGrassPale => Some("runtime/tilesets/haunted/haunted_moon_grass_pale_base_v01.png"),
        SurfaceId::HauntedMossSoil => Some("runtime/tilesets/haunted/haunted_moss_soil_base_v01.png"),
        SurfaceId::HauntedRootSoil => Some("runtime/tilesets/haunted/haunted_root_soil_base_v01.png"),
        SurfaceId::HauntedLeafLitter => Some("runtime/tilesets/haunted/haunted_leaf_litter_base_v01.png"),
        SurfaceId::HauntedPaleStoneMix => Some("runtime/tilesets/haunted/haunted_pale_stone_mix_base_v01.png"),
        SurfaceId::HauntedOldPath => Some("runtime/tilesets/haunted/haunted_old_path_base_v01.png"),
        SurfaceId::HauntedSunkenGrass => Some("runtime/tilesets/haunted/haunted_sunken_grass_base_v01.png"),
        SurfaceId::HauntedShallowPuddle => Some("runtime/tilesets/haunted/haunted_shallow_puddle_base_v01.png"),
        SurfaceId::VillageWorkyardDirt => Some("runtime/tilesets/village/village_workyard_dirt_base_v01.png"),
        SurfaceId::VillageDirtSandyMix => Some("runtime/tilesets/village/village_dirt_sandy_mix_base_v01.png"),
        SurfaceId::VillageDirtStonyMix => Some("runtime/tilesets/village/village_dirt_stony_mix_base_v01.png"),
        SurfaceId::VillageDirtClean => Some("runtime/tilesets/village/village_dirt_base_clean_v01.png"),
        SurfaceId::VillageStorageGround => Some("runtime/tilesets/village/village_storage_ground_base_v01.png"),
        SurfaceId::VillageTarStainedDirt => Some("runtime/tilesets/village/village_tar_stained_dirt_base_v01.png"),
        SurfaceId::VillageSawdustDirt => Some("runtime/tilesets/village/village_sawdust_dirt_base_v01.png"),
        SurfaceId::VillageDirtDry => Some("runtime/tilesets/village/village_dirt_base_dry_v01.png"),
        SurfaceId::VillageFarmSoilOld => Some("runtime/tilesets/village/village_farm_soil_base_old_v01.png"),
        SurfaceId::VillageClearingGround => Some("runtime/tilesets/village/village_clearing_ground_base_v01.png"),
        SurfaceId::VillageAshDirt => Some("runtime/tilesets/village/village_ash_dirt_base_v01.png"),
        SurfaceId::VillageDirtGrassMix => Some("runtime/tilesets/village/village_dirt_grass_mix_base_v01.png"),
        SurfaceId::VillageCompostSoil => Some("runtime/tilesets/village/village_compost_soil_base_v01.png"),
        SurfaceId::VillageFarmSoilFresh => Some("runtime/tilesets/village/village_farm_soil_base_fresh_v01.png"),
        SurfaceId::VillageOldPathDirt => Some("runtime/tilesets/village/village_old_path_dirt_base_v01.png"),
        SurfaceId::VillageDirtDamp => Some("runtime/tilesets/village/village_dirt_base_damp_v01.png"),
        SurfaceId::CliffGrassTop => Some("runtime/tilesets/cliff_highland/cliff_highland_grass_top_base_v01.png"),
        SurfaceId::CliffStoneTop => Some("runtime/tilesets/cliff_highland/cliff_highland_stone_top_base_v01.png"),
        SurfaceId::CliffDirtTop => Some("runtime/tilesets/cliff_highland/cliff_highland_dirt_top_base_v01.png"),
        SurfaceId::CliffMossyStone => Some("runtime/tilesets/cliff_highland/cliff_highland_mossy_stone_base_v01.png"),
        SurfaceId::CliffCrackedStone => Some("runtime/tilesets/cliff_highland/cliff_highland_cracked_stone_base_v01.png"),
        SurfaceId::CliffDarkSlate => Some("runtime/tilesets/cliff_highland/cliff_highland_dark_slate_base_v01.png"),
        SurfaceId::CliffDryScrub => Some("runtime/tilesets/cliff_highland/cliff_highland_dry_scrub_base_v01.png"),
        SurfaceId::CliffGravelTop => Some("runtime/tilesets/cliff_highland/cliff_highland_gravel_top_base_v01.png"),
        SurfaceId::CliffLimestone => Some("runtime/tilesets/cliff_highland/cliff_highland_limestone_base_v01.png"),
        SurfaceId::CliffOldPath => Some("runtime/tilesets/cliff_highland/cliff_highland_old_path_base_v01.png"),
        SurfaceId::CliffRootCrack => Some("runtime/tilesets/cliff_highland/cliff_highland_root_crack_base_v01.png"),
        SurfaceId::CliffRuinGround => Some("runtime/tilesets/cliff_highland/cliff_highland_ruin_ground_base_v01.png"),
        SurfaceId::CliffSandyStone => Some("runtime/tilesets/cliff_highland/cliff_highland_sandy_stone_base_v01.png"),
        SurfaceId::CliffShadowedGrass => Some("runtime/tilesets/cliff_highland/cliff_highland_shadowed_grass_base_v01.png"),
        SurfaceId::CliffWindburnGrass => Some("runtime/tilesets/cliff_highland/cliff_highland_windburn_grass_base_v01.png"),
        SurfaceId::CliffBuildablePlateau => Some("runtime/tilesets/cliff_highland/cliff_highland_buildable_plateau_base_v01.png"),
    }
}

/// Weighted field pool per biome: ground tiles heaviest, accents lighter.
pub open spec fn spec_biome_field_pool(biome: Biome) -> Seq<(SurfaceId, u8)> {
    match biome {
        Biome::Haunted => seq![(SurfaceId::HauntedMoonGrass, 6u8), (SurfaceId::HauntedMoonGrassDark, 5u8), (SurfaceId::HauntedMoonGrassPale, 4u8), (SurfaceId::HauntedMossSoil, 3u8), (SurfaceId::HauntedSunkenGrass, 2u8), (SurfaceId::HauntedRootSoil, 2u8)],
        Biome::Volcanic => seq![(SurfaceId::VolcanicAshSoil, 6u8), (SurfaceId::VolcanicAshSoilCracked, 5u8), (SurfaceId::VolcanicCharredDirt, 4u8), (SurfaceId::VolcanicBasalt, 3u8), (SurfaceId::VolcanicBasaltCracked, 2u8), (SurfaceId::VolcanicAshGrassSparse, 2u8)],
        Biome::Cliff => seq![(SurfaceId::CliffGrassTop, 6u8), (SurfaceId::CliffStoneTop, 5u8), (SurfaceId::CliffDirtTop, 4u8), (SurfaceId::CliffMossyStone, 3u8), (SurfaceId::CliffShadowedGrass, 2u8), (SurfaceId::CliffGravelTop, 2u8)],
    }
}

/// Weighted field pool per biome: ground tiles heaviest, accents lighter.
pub fn biome_field_pool(biome: Biome) -> (r: Vec<(SurfaceId, u8)>)
    ensures
        r@ == spec_biome_field_pool(biome),
{
    let r = match biome {
        Biome::Haunted => vec![(SurfaceId::HauntedMoonGrass, 6u8), (SurfaceId::HauntedMoonGrassDark, 5u8), (SurfaceId::HauntedMoonGrassPale, 4u8), (SurfaceId::HauntedMossSoil, 3u8), (SurfaceId::HauntedSunkenGrass, 2u8), (SurfaceId::HauntedRootSoil, 2u8)],
        Biome::Volcanic => vec![(SurfaceId::VolcanicAshSoil, 6u8), (SurfaceId::VolcanicAshSoilCracked, 5u8), (SurfaceId::VolcanicCharredDirt, 4u8), (SurfaceId::VolcanicBasalt, 3u8), (SurfaceId::VolcanicBasaltCracked, 2u8), (SurfaceId::VolcanicAshGrassSparse, 2u8)],
        Biome::Cliff => vec![(SurfaceId::CliffGrassTop, 6u8), (SurfaceId::CliffStoneTop, 5u8), (SurfaceId::CliffDirtTop, 4u8), (SurfaceId::CliffMossyStone, 3u8), (SurfaceId::CliffShadowedGrass, 2u8), (SurfaceId::CliffGravelTop, 2u8)],
    };
    assert(r@ =~= spec_biome_field_pool(biome));
    r
}

/// Large coherent "ground" tiles that form a biome's base field.
pub open spec fn spec_biome_ground_pool(biome: Biome) -> Seq<SurfaceId> {
    match biome {
        Biome::Haunted => seq![SurfaceId::HauntedMoonGrass, SurfaceId::HauntedMoonGrassDark, SurfaceId::HauntedMoonGrassPale, SurfaceId::HauntedMossSoil],
        Biome::Volcanic => seq![SurfaceId::VolcanicAshSoil, SurfaceId::VolcanicAshSoilCracked, SurfaceId::VolcanicCharredDirt, SurfaceId::VolcanicBasalt],
        Biome::Cliff => seq![SurfaceId::CliffGrassTop, SurfaceId::CliffStoneTop, SurfaceId::CliffDirtTop, SurfaceId::CliffMossyStone],
    }
}

/// Large coherent "ground" tiles that form a biome's base field.
pub fn biome_ground_pool(biome: Biome) -> (r: Vec<SurfaceId>)
    ensures
        r@ == spec_biome_ground_pool(biome),
{
    let r = match biome {
        Biome::Haunted => vec![SurfaceId::HauntedMoonGrass, SurfaceId::HauntedMoonGrassDark, SurfaceId::HauntedMoonGrassPale, SurfaceId::HauntedMossSoil],
        Biome::Volcanic => vec![SurfaceId::VolcanicAshSoil, SurfaceId::VolcanicAshSoilCracked, SurfaceId::VolcanicCharredDirt, SurfaceId::VolcanicBasalt],
        Biome::Cliff => vec![SurfaceId::CliffGrassTop, SurfaceId::CliffStoneTop, SurfaceId::CliffDirtTop, SurfaceId::CliffMossyStone],
    };
    assert(r@ =~= spec_biome_ground_pool(biome));
    r
}

/// Smaller "accent" tiles that form organic patches on top of ground.
pub open spec fn spec_biome_accent_pool(biome: Biome) -> Seq<SurfaceId> {
    match biome {
        Biome::Haunted => seq![SurfaceId::HauntedRootSoil, SurfaceId::HauntedLeafLitter, SurfaceId::HauntedSunkenGrass, SurfaceId::HauntedPaleStoneMix, SurfaceId::HauntedOldPath, SurfaceId::HauntedShallowPuddle],
        Biome::Volcanic => seq![SurfaceId::VolcanicBasaltCracked, SurfaceId::VolcanicEmberGrit, SurfaceId::VolcanicAshGrassSparse, SurfaceId::VolcanicObsidianShard, SurfaceId::VolcanicForgeGround, SurfaceId::VolcanicSteamScarred, SurfaceId::VolcanicSulfurStain],
        Biome::Cliff => seq![SurfaceId::CliffCrackedStone, SurfaceId::CliffDarkSlate, SurfaceId::CliffDryScrub, SurfaceId::CliffGravelTop, SurfaceId::CliffLimestone, SurfaceId::CliffOldPath, SurfaceId::CliffRootCrack, SurfaceId::CliffRuinGround, SurfaceId::CliffSandyStone, SurfaceId::CliffShadowedGrass, SurfaceId::CliffWindburnGrass],
    }
}

/// Smaller "accent" tiles that form organic patches on top of ground.
pub fn biome_accent_pool(biome: Biome) -> (r: Vec<SurfaceId>)
    ensures
        r@ == spec_biome_accent_pool(biome),
{
    let r = match biome {
        Biome::Haunted => vec![SurfaceId::HauntedRootSoil, SurfaceId::HauntedLeafLitter, SurfaceId::HauntedSunkenGrass, SurfaceId::HauntedPaleStoneMix, SurfaceId::HauntedOldPath, SurfaceId::HauntedShallowPuddle],
        Biome::Volcanic => vec![SurfaceId::VolcanicBasaltCracked, SurfaceId::VolcanicEmberGrit, SurfaceId::VolcanicAshGrassSparse, SurfaceId::VolcanicObsidianShard, SurfaceId::VolcanicForgeGround, SurfaceId::VolcanicSteamScarred, SurfaceId::VolcanicSulfurStain],
        Biome::Cliff => vec![SurfaceId::CliffCrackedStone, SurfaceId::CliffDarkSlate, SurfaceId::CliffDryScrub, SurfaceId::CliffGravelTop, SurfaceId::CliffLimestone, SurfaceId::CliffOldPath, SurfaceId::CliffRootCrack, SurfaceId::CliffRuinGround, SurfaceId::CliffSandyStone, SurfaceId::CliffShadowedGrass, SurfaceId::CliffWindburnGrass],
    };
    assert(r@ =~= spec_biome_accent_pool(biome));
    r
}

/// Ground tiles of every village clearing, in placement order.
pub open spec fn spec_village_surfaces() -> Seq<SurfaceId> {
    seq![SurfaceId::VillageWorkyardDirt, SurfaceId::VillageDirtSandyMix, SurfaceId::VillageDirtStonyMix, SurfaceId::VillageDirtClean, SurfaceId::VillageStorageGround, SurfaceId::VillageTarStainedDirt, SurfaceId::VillageSawdustDirt, SurfaceId::VillageDirtDry, SurfaceId::VillageFarmSoilOld, SurfaceId::VillageClearingGround, SurfaceId::VillageAshDirt, SurfaceId::VillageDirtGrassMix, SurfaceId::VillageCompostSoil, SurfaceId::VillageFarmSoilFresh, SurfaceId::VillageOldPathDirt, SurfaceId::VillageDirtDamp]
}

/// Ground tiles of every village clearing, in placement order.
pub fn village_surfaces() -> (r: Vec<SurfaceId>)
    ensures
        r@ == spec_village_surfaces(),
{
    let r = vec![SurfaceId::VillageWorkyardDirt, SurfaceId::VillageDirtSandyMix, SurfaceId::VillageDirtStonyMix, SurfaceId::VillageDirtClean, SurfaceId::VillageStorageGround, SurfaceId::VillageTarStainedDirt, SurfaceId::VillageSawdustDirt, SurfaceId::VillageDirtDry, SurfaceId::VillageFarmSoilOld, SurfaceId::VillageClearingGround, SurfaceId::VillageAshDirt, SurfaceId::VillageDirtGrassMix, SurfaceId::VillageCompostSoil, SurfaceId::VillageFarmSoilFresh, SurfaceId::VillageOldPathDirt, SurfaceId::VillageDirtDamp];
    assert(r@ =~= spec_village_surfaces());
    r
}

/// Surfaces a terrain role may take in a biome (first = default).
pub open spec fn spec_surface_pool(biome: Biome, role: TerrainRole) -> Seq<SurfaceId> {
    match (biome, role) {
        (Biome::Volcanic, TerrainRole::BeachOuter) => seq![SurfaceId::VolcanicBlackSand, SurfaceId::VolcanicAshDustedSand],
        (Biome::Volcanic, TerrainRole::BeachMid) => seq![SurfaceId::VolcanicAshDustedSand, SurfaceId::VolcanicCharredDirt],
        (Biome::Volcanic, TerrainRole::BeachInner) => seq![SurfaceId::VolcanicCharredDirt, SurfaceId::VolcanicAshSoil],
        (Biome::Volcanic, TerrainRole::SpecialScar) => seq![SurfaceId::VolcanicLavaCrack, SurfaceId::VolcanicCoolingLava],
        (Biome::Volcanic, _) => seq![SurfaceId::VolcanicAshSoil, SurfaceId::VolcanicAshSoilCracked, SurfaceId::VolcanicCharredDirt, SurfaceId::VolcanicBasalt, SurfaceId::VolcanicBasaltCracked, SurfaceId::VolcanicSulfurStain, SurfaceId::VolcanicEmberGrit, SurfaceId::VolcanicAshGrassSparse, SurfaceId::VolcanicObsidianShard, SurfaceId::VolcanicForgeGround, SurfaceId::VolcanicSteamScarred, SurfaceId::VolcanicBlackSand, SurfaceId::VolcanicAshDustedSand],
        (Biome::Cliff, TerrainRole::BeachOuter) => seq![SurfaceId::CliffSandyStone, SurfaceId::CliffGravelTop],
        (Biome::Cliff, TerrainRole::BeachMid) => seq![SurfaceId::CliffGravelTop, SurfaceId::CliffDirtTop],
        (Biome::Cliff, TerrainRole::BeachInner) => seq![SurfaceId::CliffDirtTop, SurfaceId::CliffGrassTop],
        (Biome::Cliff, TerrainRole::Clearing) => spec_village_surfaces(),
        (Biome::Cliff, _) => seq![SurfaceId::CliffGrassTop, SurfaceId::CliffStoneTop, SurfaceId::CliffDirtTop, SurfaceId::CliffMossyStone, SurfaceId::CliffCrackedStone, SurfaceId::CliffDarkSlate, SurfaceId::CliffDryScrub, SurfaceId::CliffGravelTop, SurfaceId::CliffLimestone, SurfaceId::CliffOldPath, SurfaceId::CliffRootCrack, SurfaceId::CliffRuinGround, SurfaceId::CliffSandyStone, SurfaceId::CliffShadowedGrass, SurfaceId::CliffWindburnGrass, SurfaceId::CliffBuildablePlateau],
        (Biome::Haunted, TerrainRole::BeachOuter) => seq![SurfaceId::HauntedWetSoil, SurfaceId::HauntedSaltSoil],
        (Biome::Haunted, TerrainRole::BeachMid) => seq![SurfaceId::HauntedBlueClay, SurfaceId::HauntedPaleMud, SurfaceId::HauntedSaltSoil],
        (Biome::Haunted, TerrainRole::BeachInner) => seq![SurfaceId::HauntedPaleMud, SurfaceId::HauntedBuildableClearing, SurfaceId::HauntedMossSoil],
        (Biome::Haunted, TerrainRole::Clearing) => spec_village_surfaces(),
        (Biome::Haunted, _) => seq![SurfaceId::HauntedMoonGrass, SurfaceId::HauntedMoonGrassDark, SurfaceId::HauntedMoonGrassPale, SurfaceId::HauntedSunkenGrass, SurfaceId::HauntedMossSoil, SurfaceId::HauntedRootSoil, SurfaceId::HauntedLeafLitter, SurfaceId::HauntedPaleStoneMix, SurfaceId::HauntedOldPath, SurfaceId::HauntedShallowPuddle, SurfaceId::HauntedBuildableClearing],
    }
}

/// Surfaces a terrain role may take in a biome (first = default).
pub fn surface_pool(biome: Biome, role: TerrainRole) -> (r: Vec<SurfaceId>)
    ensures
        r@ == spec_surface_pool(biome, role),
{
    let r = match (biome, role) {
        (Biome::Volcanic, TerrainRole::BeachOuter) => vec![SurfaceId::VolcanicBlackSand, SurfaceId::VolcanicAshDustedSand],
        (Biome::Volcanic, TerrainRole::BeachMid) => vec![SurfaceId::VolcanicAshDustedSand, SurfaceId::VolcanicCharredDirt],
        (Biome::Volcanic, TerrainRole::BeachInner) => vec![SurfaceId::VolcanicCharredDirt, SurfaceId::VolcanicAshSoil],
        (Biome::Volcanic, TerrainRole::SpecialScar) => vec![SurfaceId::VolcanicLavaCrack, SurfaceId::VolcanicCoolingLava],
        (Biome::Volcanic, _) => vec![SurfaceId::VolcanicAshSoil, SurfaceId::VolcanicAshSoilCracked, SurfaceId::VolcanicCharredDirt, SurfaceId::VolcanicBasalt, SurfaceId::VolcanicBasaltCracked, SurfaceId::VolcanicSulfurStain, SurfaceId::VolcanicEmberGrit, SurfaceId::VolcanicAshGrassSparse, SurfaceId::VolcanicObsidianShard, SurfaceId::VolcanicForgeGround, SurfaceId::VolcanicSteamScarred, SurfaceId::VolcanicBlackSand, SurfaceId::VolcanicAshDustedSand],
        (Biome::Cliff, TerrainRole::BeachOuter) => vec![SurfaceId::CliffSandyStone, SurfaceId::CliffGravelTop],
        (Biome::Cliff, TerrainRole::BeachMid) => vec![SurfaceId::CliffGravelTop, SurfaceId::CliffDirtTop],
        (Biome::Cliff, TerrainRole::BeachInner) => vec![SurfaceId::CliffDirtTop, SurfaceId::CliffGrassTop],
        (Biome::Cliff, TerrainRole::Clearing) => village_surfaces(),
        (Biome::Cliff, _) => vec![SurfaceId::CliffGrassTop, SurfaceId::CliffStoneTop, SurfaceId::CliffDirtTop, SurfaceId::CliffMossyStone, SurfaceId::CliffCrackedStone, SurfaceId::CliffDarkSlate, SurfaceId::CliffDryScrub, SurfaceId::CliffGravelTop, SurfaceId::CliffLimestone, SurfaceId::CliffOldPath, SurfaceId::CliffRootCrack, SurfaceId::CliffRuinGround, SurfaceId::CliffSandyStone, SurfaceId::CliffShadowedGrass, SurfaceId::CliffWindburnGrass, SurfaceId::CliffBuildablePlateau],
        (Biome::Haunted, TerrainRole::BeachOuter) => vec![SurfaceId::HauntedWetSoil, SurfaceId::HauntedSaltSoil],
        (Biome::Haunted, TerrainRole::BeachMid) => vec![SurfaceId::HauntedBlueClay, SurfaceId::HauntedPaleMud, SurfaceId::HauntedSaltSoil],
        (Biome::Haunted, TerrainRole::BeachInner) => vec![SurfaceId::HauntedPaleMud, SurfaceId::HauntedBuildableClearing, SurfaceId::HauntedMossSoil],
        (Biome::Haunted, TerrainRole::Clearing) => village_surfaces(),
        (Biome::Haunted, _) => vec![SurfaceId::HauntedMoonGrass, SurfaceId::HauntedMoonGrassDark, SurfaceId::HauntedMoonGrassPale, SurfaceId::HauntedSunkenGrass, SurfaceId::HauntedMossSoil, SurfaceId::HauntedRootSoil, SurfaceId::HauntedLeafLitter, SurfaceId::HauntedPaleStoneMix, SurfaceId::HauntedOldPath, SurfaceId::HauntedShallowPuddle, SurfaceId::HauntedBuildableClearing],
    };
    assert(r@ =~= spec_surface_pool(biome, role));
    r
}

/// Membership of a surface in a list.
pub fn contains_surface(pool: &Vec<SurfaceId>, s: SurfaceId) -> (r: bool)
    ensures
        r == pool@.contains(s),
{
    let mut i: usize = 0;
    while i < pool.len()
        invariant
            i <= pool.len(),
            forall|k: int| 0 <= k < i ==> pool@[k] != s,
        decreases pool.len() - i,
    {
        if pool[i] == s {
            return true;
        }
        i = i + 1;
    }
    false
}

/// The single representative ground tile of a biome.
pub open spec fn spec_biome_ground_surface(biome: Biome) -> SurfaceId {
    spec_biome_ground_pool(biome)[0]
}

/// The single representative ground tile of a biome.
pub fn biome_ground_surface(biome: Biome) -> (r: SurfaceId)
    ensures
        r == spec_biome_ground_surface(biome),
{
    let pool = biome_ground_pool(biome);
    pool[0]
}

/// Ground when the surface belongs to any biome's ground pool, else accent.
pub open spec fn spec_surface_tier(s: SurfaceId) -> SurfaceTier {
    if spec_biome_ground_pool(Biome::Haunted).contains(s) || spec_biome_ground_pool(Biome::Volcanic).contains(s)
        || spec_biome_ground_pool(Biome::Cliff).contains(s) {
        SurfaceTier::Ground
    } else {
        SurfaceTier::Accent
    }
}

/// Classify a surface into its blend tier for intra-biome organic patches.
pub fn surface_tier(s: SurfaceId) -> (r: SurfaceTier)
    ensures
        r == spec_surface_tier(s),
{
    if contains_surface(&biome_ground_pool(Biome::Haunted), s)
        || contains_surface(&biome_ground_pool(Biome::Volcanic), s)
        || contains_surface(&biome_ground_pool(Biome::Cliff), s) {
        SurfaceTier::Ground
    } else {
        SurfaceTier::Accent
    }
}

/// Default surface of a role: ocean surfaces for ocean roles, otherwise the
/// first entry of the role's pool in the given biome (Haunted when none).
pub open spec fn spec_default_surface_for_role(role: TerrainRole, biome: Option<Biome>) -> SurfaceId {
    match role {
        TerrainRole::OceanDeep => SurfaceId::OceanDeep,
        TerrainRole::OceanShallow => SurfaceId::OceanShallow,
        _ => {
            let b = match biome {
                Some(b) => b,
                None => Biome::Haunted,
            };
            spec_surface_pool(b, role)[0]
        },
    }
}

/// Default surface of a role in a biome.
pub fn default_surface_for_role(role: TerrainRole, biome: Option<Biome>) -> (r: SurfaceId)
    ensures
        r == spec_default_surface_for_role(role, biome),
{
    match role {
        TerrainRole::OceanDeep => SurfaceId::OceanDeep,
        TerrainRole::OceanShallow => SurfaceId::OceanShallow,
        _ => {
            let b = match biome {
                Some(b) => b,
                None => Biome::Haunted,
            };
            let pool = surface_pool(b, role);
            pool[0]
        },
    }
}

/// Beach surface of a band; `noise_above_zero` and `noise_above_fifth` are the
/// comparisons of the coast noise sample with 0 and 0.2.
pub open spec fn spec_beach_surface_for(
    biome: Biome,
    role: TerrainRole,
    noise_above_zero: bool,
    noise_above_fifth: bool,
) -> SurfaceId {
    match (biome, role) {
        (Biome::Cliff, TerrainRole::BeachOuter) => if noise_above_zero { SurfaceId::CliffSandyStone } else { SurfaceId::CliffGravelTop },
        (Biome::Cliff, TerrainRole::BeachMid) => if noise_above_zero { SurfaceId::CliffGravelTop } else { SurfaceId::CliffDirtTop },
        (Biome::Cliff, TerrainRole::BeachInner) => SurfaceId::CliffGrassTop,
        (Biome::Volcanic, TerrainRole::BeachOuter) => if noise_above_zero { SurfaceId::VolcanicBlackSand } else { SurfaceId::VolcanicAshDustedSand },
        (Biome::Volcanic, TerrainRole::BeachMid) => if noise_above_zero { SurfaceId::VolcanicAshDustedSand } else { SurfaceId::VolcanicCharredDirt },
        (Biome::Volcanic, TerrainRole::BeachInner) => if noise_above_fifth { SurfaceId::VolcanicEmberGrit } else { SurfaceId::VolcanicCharredDirt },
        (Biome::Haunted, TerrainRole::BeachOuter) => if noise_above_zero { SurfaceId::HauntedWetSoil } else { SurfaceId::HauntedSaltSoil },
        (Biome::Haunted, TerrainRole::BeachMid) => if noise_above_zero { SurfaceId::HauntedBlueClay } else { SurfaceId::HauntedPaleMud },
        (Biome::Haunted, TerrainRole::BeachInner) => SurfaceId::HauntedBuildableClearing,
        _ => SurfaceId::HauntedWetSoil,
    }
}

/// Beach surface of a band, chosen by the sign of the coast noise.
pub fn beach_surface_for(
    biome: Biome,
    role: TerrainRole,
    noise_above_zero: bool,
    noise_above_fifth: bool,
) -> (r: SurfaceId)
    ensures
        r == spec_beach_surface_for(biome, role, noise_above_zero, noise_above_fifth),
{
    match (biome, role) {
        (Biome::Cliff, TerrainRole::BeachOuter) => if noise_above_zero { SurfaceId::CliffSandyStone } else { SurfaceId::CliffGravelTop },
        (Biome::Cliff, TerrainRole::BeachMid) => if noise_above_zero { SurfaceId::CliffGravelTop } else { SurfaceId::CliffDirtTop },
        (Biome::Cliff, TerrainRole::BeachInner) => SurfaceId::CliffGrassTop,
        (Biome::Volcanic, TerrainRole::BeachOuter) => if noise_above_zero { SurfaceId::VolcanicBlackSand } else { SurfaceId::VolcanicAshDustedSand },
        (Biome::Volcanic, TerrainRole::BeachMid) => if noise_above_zero { SurfaceId::VolcanicAshDustedSand } else { SurfaceId::VolcanicCharredDirt },
        (Biome::Volcanic, TerrainRole::BeachInner) => if noise_above_fifth { SurfaceId::VolcanicEmberGrit } else { SurfaceId::VolcanicCharredDirt },
        (Biome::Haunted, TerrainRole::BeachOuter) => if noise_above_zero { SurfaceId::HauntedWetSoil } else { SurfaceId::HauntedSaltSoil },
        (Biome::Haunted, TerrainRole::BeachMid) => if noise_above_zero { SurfaceId::HauntedBlueClay } else { SurfaceId::HauntedPaleMud },
        (Biome::Haunted, TerrainRole::BeachInner) => SurfaceId::HauntedBuildableClearing,
        _ => SurfaceId::HauntedWetSoil,
    }
}

/// Sum of the weights of a pool.
pub open spec fn pool_weight(pool: Seq<(SurfaceId, u8)>) -> int
    decreases pool.len(),
{
    if pool.len() == 0 { 0 } else { pool[0].1 as int + pool_weight(pool.drop_first()) }
}

/// Walk the pool subtracting weights until `target` falls inside an entry;
/// the last entry when `target` runs past the end.
pub open spec fn pick_by_weight(pool: Seq<(SurfaceId, u8)>, target: int) -> SurfaceId
    decreases pool.len(),
{
    if pool.len() <= 1 {
        pool[0].0
    } else if target < pool[0].1 as int {
        pool[0].0
    } else {
        pick_by_weight(pool.drop_first(), target - pool[0].1 as int)
    }
}

/// The pool entry a weighted draw lands on: `target` is the draw scaled to
/// the total weight. An all-zero pool gives its first entry.
pub open spec fn spec_weighted_pick(pool: Seq<(SurfaceId, u8)>, target: int) -> SurfaceId {
    if pool_weight(pool) == 0 { pool[0].0 } else { pick_by_weight(pool, target) }
}

pub proof fn lemma_pool_weight_bound(pool: Seq<(SurfaceId, u8)>)
    ensures
        0 <= pool_weight(pool) <= 255 * pool.len(),
    decreases pool.len(),
{
    if pool.len() > 0 {
        lemma_pool_weight_bound(pool.drop_first());
    }
}

/// Deterministically map a scaled draw `target` to a weighted pool entry.
pub fn weighted_pick(pool: &Vec<(SurfaceId, u8)>, target: u32) -> (r: SurfaceId)
    requires
        pool@.len() > 0,
        pool@.len() < 1000,
    ensures
        r == spec_weighted_pick(pool@, target as int),
{
    proof { lemma_pool_weight_bound(pool@); }
    let mut total: u32 = 0;
    let mut i: usize = 0;
    assert(pool@.skip(0) =~= pool@);
    while i < pool.len()
        invariant
            i <= pool.len(),
            pool@.len() < 1000,
            total as int + pool_weight(pool@.skip(i as int)) == pool_weight(pool@),
            total as int <= 255 * i,
        decreases pool.len() - i,
    {
        proof {
            assert(pool@.skip(i as int).drop_first() =~= pool@.skip(i + 1));
        }
        total = total + pool[i].1 as u32;
        i = i + 1;
    }
    assert(pool@.skip(pool@.len() as int) =~= Seq::<(SurfaceId, u8)>::empty());
    if total == 0 {
        return pool[0].0;
    }
    let mut t: u32 = target;
    let mut j: usize = 0;
    assert(pool@.skip(0) =~= pool@);
    while j + 1 < pool.len()
        invariant
            j < pool.len(),
            total as int == pool_weight(pool@),
            total > 0,
            pick_by_weight(pool@.skip(j as int), t as int) == pick_by_weight(pool@, target as int),
        decreases pool.len() - j,
    {
        let w = pool[j].1 as u32;
        if t < w {
            return pool[j].0;
        }
        proof {
            assert(pool@.skip(j as int).drop_first() =~= pool@.skip(j + 1));
        }
        t = t - w;
        j = j + 1;
    }
    assert(pool@.skip(j as int).len() == 1);
    pool[j].0
}

/// Coarse visual-compatibility group of a surface: 100 for village ground,
/// `2 * b` for the ground pool and `2 * b + 1` for the accent pool of the
/// `b`-th biome (Haunted, Volcanic, Cliff), 200 for anything else.
pub open spec fn spec_blend_group(s: SurfaceId) -> u8 {
    if spec_village_surfaces().contains(s) {
        100
    } else if spec_biome_ground_pool(Biome::Haunted).contains(s) {
        0
    } else if spec_biome_accent_pool(Biome::Haunted).contains(s) {
        1
    } else if spec_biome_ground_pool(Biome::Volcanic).contains(s) {
        2
    } else if spec_biome_accent_pool(Biome::Volcanic).contains(s) {
        3
    } else if spec_biome_ground_pool(Biome::Cliff).contains(s) {
        4
    } else if spec_biome_accent_pool(Biome::Cliff).contains(s) {
        5
    } else {
        200
    }
}

/// Coarse visual-compatibility group of a surface. Surfaces in one group tile
/// together cleanly and are not blended.
pub fn blend_group(s: SurfaceId) -> (r: u8)
    ensures
        r == spec_blend_group(s),
{
    if contains_surface(&village_surfaces(), s) {
        100
    } else if contains_surface(&biome_ground_pool(Biome::Haunted), s) {
        0
    } else if contains_surface(&biome_accent_pool(Biome::Haunted), s) {
        1
    } else if contains_surface(&biome_ground_pool(Biome::Volcanic), s) {
        2
    } else if contains_surface(&biome_accent_pool(Biome::Volcanic), s) {
        3
    } else if contains_surface(&biome_ground_pool(Biome::Cliff), s) {
        4
    } else if contains_surface(&biome_accent_pool(Biome::Cliff), s) {
        5
    } else {
        200
    }
}

/// A fingerprint of a slug: its length and three of its characters.
pub open spec fn slug_code(t: Seq<char>) -> int {
    t.len() * 1000000000 + (t[8] as int) * 1000000 + (t[t.len() - 1] as int) * 1000 + (t[t.len() - 6] as int)
}

/// The fingerprint of each surface's slug.
pub open spec fn surface_code(s: SurfaceId) -> int {
    match s {
        SurfaceId::OceanDeep => 10101112110,
        SurfaceId::OceanShallow => 13097119104,
        SurfaceId::VolcanicBlackSand => 19095100107,
        SurfaceId::VolcanicAshDustedSand => 24095100100,
        SurfaceId::VolcanicCharredDirt => 21095116100,
        SurfaceId::VolcanicAshSoil => 17095108104,
        SurfaceId::VolcanicAshSoilCracked => 25095100114,
        SurfaceId::VolcanicBasalt => 15095116098,
        SurfaceId::VolcanicSulfurStain => 21095110095,
        SurfaceId::VolcanicLavaCrack => 19095107095,
        SurfaceId::VolcanicCoolingLava => 21095097103,
        SurfaceId::VolcanicEmberGrit => 19095116114,
        SurfaceId::VolcanicBasaltCracked => 23095100114,
        SurfaceId::VolcanicAshGrassSparse => 25095101115,
        SurfaceId::VolcanicObsidianShard => 23095100095,
        SurfaceId::VolcanicForgeGround => 21095100103,
        SurfaceId::VolcanicSteamScarred => 22095100099,
        SurfaceId::VolcanicRedHotStone => 22095101095,
        SurfaceId::HauntedWetSoil => 16119108116,
        SurfaceId::HauntedSaltSoil => 17115108116,
        SurfaceId::HauntedBlueClay => 17098121101,
        SurfaceId::HauntedPaleMud => 16112100108,
        SurfaceId::HauntedBuildableClearing => 26098103101,
        SurfaceId::HauntedMoonGrass => 18109115095,
        SurfaceId::HauntedMoonGrassDark => 23109107115,
        SurfaceId::HauntedMoonGrassPale => 23109101115,
        SurfaceId::HauntedMossSoil => 17109108115,
        SurfaceId::HauntedRootSoil => 17114108116,
        SurfaceId::HauntedLeafLitter => 19108114108,
        SurfaceId::HauntedPaleStoneMix => 22112120110,
        SurfaceId::HauntedOldPath => 16111104100,
        SurfaceId::HauntedSunkenGrass => 20115115095,
        SurfaceId::HauntedShallowPuddle => 22115101112,
        SurfaceId::VillageWorkyardDirt => 21119116100,
        SurfaceId::VillageDirtSandyMix => 22100120100,
        SurfaceId::VillageDirtStonyMix => 22100120110,
        SurfaceId::VillageDirtClean => 18100110095,
        SurfaceId::VillageStorageGround => 22115100103,
        SurfaceId::VillageTarStainedDirt => 24116116100,
        SurfaceId::VillageSawdustDirt => 20115116116,
        SurfaceId::VillageDirtDry => 16100121114,
        SurfaceId::VillageFarmSoilOld => 21102100105,
        SurfaceId::VillageClearingGround => 23099100103,
        SurfaceId::VillageAshDirt => 16097116104,
        SurfaceId::VillageDirtGrassMix => 22100120115,
        SurfaceId::VillageCompostSoil => 20099108116,
        SurfaceId::VillageFarmSoilFresh => 23102104095,
        SurfaceId::VillageOldPathDirt => 21111116104,
        SurfaceId::VillageDirtDamp => 17100112116,
        SurfaceId::CliffGrassTop => 15097112115,
        SurfaceId::CliffStoneTop => 15111112110,
        SurfaceId::CliffDirtTop => 14114112114,
        SurfaceId::CliffMossyStone => 17115101095,
        SurfaceId::CliffCrackedStone => 19097101095,
        SurfaceId::CliffDarkSlate => 16114101095,
        SurfaceId::CliffDryScrub => 15121098095,
        SurfaceId::CliffGravelTop => 16097112101,
        SurfaceId::CliffLimestone => 15109101101,
        SurfaceId::CliffOldPath => 14100104100,
        SurfaceId::CliffRootCrack => 16111107095,
        SurfaceId::CliffRuinGround => 17105100103,
        SurfaceId::CliffSandyStone => 17110101095,
        SurfaceId::CliffShadowedGrass => 20097115095,
        SurfaceId::CliffWindburnGrass => 20110115095,
        SurfaceId::CliffBuildablePlateau => 23105117108,
    }
}

/// The surface a fingerprint belongs to.
pub open spec fn surface_of_code(c: int) -> SurfaceId {
    if c == 10101112110 {
        SurfaceId::OceanDeep
    } else if c == 13097119104 {
        SurfaceId::OceanShallow
    } else if c == 19095100107 {
        SurfaceId::VolcanicBlackSand
    } else if c == 24095100100 {
        SurfaceId::VolcanicAshDustedSand
    } else if c == 21095116100 {
        SurfaceId::VolcanicCharredDirt
    } else if c == 17095108104 {
        SurfaceId::VolcanicAshSoil
    } else if c == 25095100114 {
        SurfaceId::VolcanicAshSoilCracked
    } else if c == 15095116098 {
        SurfaceId::VolcanicBasalt
    } else if c == 21095110095 {
        SurfaceId::VolcanicSulfurStain
    } else if c == 19095107095 {
        SurfaceId::VolcanicLavaCrack
    } else if c == 21095097103 {
        SurfaceId::VolcanicCoolingLava
    } else if c == 19095116114 {
        SurfaceId::VolcanicEmberGrit
    } else if c == 23095100114 {
        SurfaceId::VolcanicBasaltCracked
    } else if c == 25095101115 {
        SurfaceId::VolcanicAshGrassSparse
    } else if c == 23095100095 {
        SurfaceId::VolcanicObsidianShard
    } else if c == 21095100103 {
        SurfaceId::VolcanicForgeGround
    } else if c == 22095100099 {
        SurfaceId::VolcanicSteamScarred
    } else if c == 22095101095 {
        SurfaceId::VolcanicRedHotStone
    } else if c == 16119108116 {
        SurfaceId::HauntedWetSoil
    } else if c == 17115108116 {
        SurfaceId::HauntedSaltSoil
    } else if c == 17098121101 {
        SurfaceId::HauntedBlueClay
    } else if c == 16112100108 {
        SurfaceId::HauntedPaleMud
    } else if c == 26098103101 {
        SurfaceId::HauntedBuildableClearing
    } else if c == 18109115095 {
        SurfaceId::HauntedMoonGrass
    } else if c == 23109107115 {
        SurfaceId::HauntedMoonGrassDark
    } else if c == 23109101115 {
        SurfaceId::HauntedMoonGrassPale
    } else if c == 17109108115 {
        SurfaceId::HauntedMossSoil
    } else if c == 17114108116 {
        SurfaceId::HauntedRootSoil
    } else if c == 19108114108 {
        SurfaceId::HauntedLeafLitter
    } else if c == 22112120110 {
        SurfaceId::HauntedPaleStoneMix
    } else if c == 16111104100 {
        SurfaceId::HauntedOldPath
    } else if c == 20115115095 {
        SurfaceId::HauntedSunkenGrass
    } else if c == 22115101112 {
        SurfaceId::HauntedShallowPuddle
    } else if c == 21119116100 {
        SurfaceId::VillageWorkyardDirt
    } else if c == 22100120100 {
        SurfaceId::VillageDirtSandyMix
    } else if c == 22100120110 {
        SurfaceId::VillageDirtStonyMix
    } else if c == 18100110095 {
        SurfaceId::VillageDirtClean
    } else if c == 22115100103 {
        SurfaceId::VillageStorageGround
    } else if c == 24116116100 {
        SurfaceId::VillageTarStainedDirt
    } else if c == 20115116116 {
        SurfaceId::VillageSawdustDirt
    } else if c == 16100121114 {
        SurfaceId::VillageDirtDry
    } else if c == 21102100105 {
        SurfaceId::VillageFarmSoilOld
    } else if c == 23099100103 {
        SurfaceId::VillageClearingGround
    } else if c == 16097116104 {
        SurfaceId::VillageAshDirt
    } else if c == 22100120115 {
        SurfaceId::VillageDirtGrassMix
    } else if c == 20099108116 {
        SurfaceId::VillageCompostSoil
    } else if c == 23102104095 {
        SurfaceId::VillageFarmSoilFresh
    } else if c == 21111116104 {
        SurfaceId::VillageOldPathDirt
    } else if c == 17100112116 {
        SurfaceId::VillageDirtDamp
    } else if c == 15097112115 {
        SurfaceId::CliffGrassTop
    } else if c == 15111112110 {
        SurfaceId::CliffStoneTop
    } else if c == 14114112114 {
        SurfaceId::CliffDirtTop
    } else if c == 17115101095 {
        SurfaceId::CliffMossyStone
    } else if c == 19097101095 {
        SurfaceId::CliffCrackedStone
    } else if c == 16114101095 {
        SurfaceId::CliffDarkSlate
    } else if c == 15121098095 {
        SurfaceId::CliffDryScrub
    } else if c == 16097112101 {
        SurfaceId::CliffGravelTop
    } else if c == 15109101101 {
        SurfaceId::CliffLimestone
    } else if c == 14100104100 {
        SurfaceId::CliffOldPath
    } else if c == 16111107095 {
        SurfaceId::CliffRootCrack
    } else if c == 17105100103 {
        SurfaceId::CliffRuinGround
    } else if c == 17110101095 {
        SurfaceId::CliffSandyStone
    } else if c == 20097115095 {
        SurfaceId::CliffShadowedGrass
    } else if c == 20110115095 {
        SurfaceId::CliffWindburnGrass
    } else {
        SurfaceId::CliffBuildablePlateau
    }
}

proof fn lemma_slug_code(s: SurfaceId)
    ensures
        slug_code(spec_surface_slug(s)) == surface_code(s),
        surface_of_code(surface_code(s)) == s,
{
    reveal_strlit("ocean_deep");
    reveal_strlit("ocean_shallow");
    reveal_strlit("volcanic_black_sand");
    reveal_strlit("volcanic_ash_dusted_sand");
    reveal_strlit("volcanic_charred_dirt");
    reveal_strlit("volcanic_ash_soil");
    reveal_strlit("volcanic_ash_soil_cracked");
    reveal_strlit("volcanic_basalt");
    reveal_strlit("volcanic_sulfur_stain");
    reveal_strlit("volcanic_lava_crack");
    reveal_strlit("volcanic_cooling_lava");
    reveal_strlit("volcanic_ember_grit");
    reveal_strlit("volcanic_basalt_cracked");
    reveal_strlit("volcanic_ash_grass_sparse");
    reveal_strlit("volcanic_obsidian_shard");
    reveal_strlit("volcanic_forge_ground");
    reveal_strlit("volcanic_steam_scarred");
    reveal_strlit("volcanic_red_hot_stone");
    reveal_strlit("haunted_wet_soil");
    reveal_strlit("haunted_salt_soil");
    reveal_strlit("haunted_blue_clay");
    reveal_strlit("haunted_pale_mud");
    reveal_strlit("haunted_buildable_clearing");
    reveal_strlit("haunted_moon_grass");
    reveal_strlit("haunted_moon_grass_dark");
    reveal_strlit("haunted_moon_grass_pale");
    reveal_strlit("haunted_moss_soil");
    reveal_strlit("haunted_root_soil");
    reveal_strlit("haunted_leaf_litter");
    reveal_strlit("haunted_pale_stone_mix");
    reveal_strlit("haunted_old_path");
    reveal_strlit("haunted_sunken_grass");
    reveal_strlit("haunted_shallow_puddle");
    reveal_strlit("village_workyard_dirt");
    reveal_strlit("village_dirt_sandy_mix");
    reveal_strlit("village_dirt_stony_mix");
    reveal_strlit("village_dirt_clean");
    reveal_strlit("village_storage_ground");
    reveal_strlit("village_tar_stained_dirt");
    reveal_strlit("village_sawdust_dirt");
    reveal_strlit("village_dirt_dry");
    reveal_strlit("village_farm_soil_old");
    reveal_strlit("village_clearing_ground");
    reveal_strlit("village_ash_dirt");
    reveal_strlit("village_dirt_grass_mix");
    reveal_strlit("village_compost_soil");
    reveal_strlit("village_farm_soil_fresh");
    reveal_strlit("village_old_path_dirt");
    reveal_strlit("village_dirt_damp");
    reveal_strlit("cliff_grass_top");
    reveal_strlit("cliff_stone_top");
    reveal_strlit("cliff_dirt_top");
    reveal_strlit("cliff_mossy_stone");
    reveal_strlit("cliff_cracked_stone");
    reveal_strlit("cliff_dark_slate");
    reveal_strlit("cliff_dry_scrub");
    reveal_strlit("cliff_gravel_top");
    reveal_strlit("cliff_limestone");
    reveal_strlit("cliff_old_path");
    reveal_strlit("cliff_root_crack");
    reveal_strlit("cliff_ruin_ground");
    reveal_strlit("cliff_sandy_stone");
    reveal_strlit("cliff_shadowed_grass");
    reveal_strlit("cliff_windburn_grass");
    reveal_strlit("cliff_buildable_plateau");
}

/// Every surface has its own slug: different surfaces never share one, so
/// a slug names its surface.
pub proof fn law_surface_slugs_unique(a: SurfaceId, b: SurfaceId)
    requires
        a != b,
    ensures
        spec_surface_slug(a) != spec_surface_slug(b),
{
    lemma_slug_code(a);
    lemma_slug_code(b);
}


/// `a` comes before `b` in character order, deciding at position `i`: they
/// agree on their first `i` characters, and there `a` ends while `b` goes on,
/// or `a` has the smaller character.
pub open spec fn slug_before_at(a: Seq<char>, b: Seq<char>, i: int) -> bool {
    &&& 0 <= i <= a.len()
    &&& i <= b.len()
    &&& a.subrange(0, i) == b.subrange(0, i)
    &&& ((i == a.len() && i < b.len()) || (i < a.len() && i < b.len() && (a[i] as u32) < (b[i] as u32)))
}

/// `a` comes before `b` in character order (for these ASCII slugs, the byte
/// order in which strings sort).
pub open spec fn slug_before(a: Seq<char>, b: Seq<char>) -> bool {
    exists|i: int| slug_before_at(a, b, i)
}

proof fn lemma_prefix_char(a: Seq<char>, b: Seq<char>, n: int, k: int)
    requires
        0 <= k < n <= a.len(),
        n <= b.len(),
        a.subrange(0, n) == b.subrange(0, n),
    ensures
        a[k] == b[k],
{
    let sa = a.subrange(0, n);
    let sb = b.subrange(0, n);
    assert(sa[k] == a[k]);
    assert(sb[k] == b[k]);
}

/// Character order is transitive.
proof fn lemma_before_trans(a: Seq<char>, b: Seq<char>, c: Seq<char>)
    requires
        slug_before(a, b),
        slug_before(b, c),
    ensures
        slug_before(a, c),
{
    let i = choose|i: int| slug_before_at(a, b, i);
    let j = choose|j: int| slug_before_at(b, c, j);
    let m = if i < j { i } else { j };
    assert forall|k: int| 0 <= k < m implies a[k] == c[k] by {
        lemma_prefix_char(a, b, i, k);
        lemma_prefix_char(b, c, j, k);
    }
    assert(a.subrange(0, m) =~= c.subrange(0, m));
    if i < j {
        if i < a.len() {
            lemma_prefix_char(b, c, j, i);
        }
    } else if j < i {
        lemma_prefix_char(a, b, i, j);
    }
    assert(slug_before_at(a, c, m));
}

/// Character order is asymmetric, so no slug comes before itself.
proof fn lemma_before_asym(a: Seq<char>, b: Seq<char>)
    requires
        slug_before(a, b),
    ensures
        !slug_before(b, a),
{
    let i = choose|i: int| slug_before_at(a, b, i);
    if slug_before(b, a) {
        let j = choose|j: int| slug_before_at(b, a, j);
        if i < j {
            if i < a.len() {
                lemma_prefix_char(b, a, j, i);
            }
        } else if j < i {
            if j < b.len() {
                lemma_prefix_char(a, b, i, j);
            }
        }
    }
}

/// Each slug comes before the slug of the next rank.
#[verifier::rlimit(100)]
proof fn lemma_rank_step(r: int)
    requires
        0 <= r < 64,
    ensures
        slug_before(spec_surface_slug(surface_of_rank(r)), spec_surface_slug(surface_of_rank(r + 1))),
{
    if r == 0 {
        reveal_strlit("cliff_buildable_plateau");
        reveal_strlit("cliff_cracked_stone");
        assert("cliff_buildable_plateau"@.subrange(0, 6) =~= "cliff_cracked_stone"@.subrange(0, 6));
        assert(slug_before_at("cliff_buildable_plateau"@, "cliff_cracked_stone"@, 6));
    } else if r == 1 {
        reveal_strlit("cliff_cracked_stone");
        reveal_strlit("cliff_dark_slate");
        assert("cliff_cracked_stone"@.subrange(0, 6) =~= "cliff_dark_slate"@.subrange(0, 6));
        assert(slug_before_at("cliff_cracked_stone"@, "cliff_dark_slate"@, 6));
    } else if r == 2 {
        reveal_strlit("cliff_dark_slate");
        reveal_strlit("cliff_dirt_top");
        assert("cliff_dark_slate"@.subrange(0, 7) =~= "cliff_dirt_top"@.subrange(0, 7));
        assert(slug_before_at("cliff_dark_slate"@, "cliff_dirt_top"@, 7));
    } else if r == 3 {
        reveal_strlit("cliff_dirt_top");
        reveal_strlit("cliff_dry_scrub");
        assert("cliff_dirt_top"@.subrange(0, 7) =~= "cliff_dry_scrub"@.subrange(0, 7));
        assert(slug_before_at("cliff_dirt_top"@, "cliff_dry_scrub"@, 7));
    } else if r == 4 {
        reveal_strlit("cliff_dry_scrub");
        reveal_strlit("cliff_grass_top");
        assert("cliff_dry_scrub"@.subrange(0, 6) =~= "cliff_grass_top"@.subrange(0, 6));
        assert(slug_before_at("cliff_dry_scrub"@, "cliff_grass_top"@, 6));
    } else if r == 5 {
        reveal_strlit("cliff_grass_top");
        reveal_strlit("cliff_gravel_top");
        assert("cliff_grass_top"@.subrange(0, 9) =~= "cliff_gravel_top"@.subrange(0, 9));
        assert(slug_before_at("cliff_grass_top"@, "cliff_gravel_top"@, 9));
    } else if r == 6 {
        reveal_strlit("cliff_gravel_top");
        reveal_strlit("cliff_limestone");
        assert("cliff_gravel_top"@.subrange(0, 6) =~= "cliff_limestone"@.subrange(0, 6));
        assert(slug_before_at("cliff_gravel_top"@, "cliff_limestone"@, 6));
    } else if r == 7 {
        reveal_strlit("cliff_limestone");
        reveal_strlit("cliff_mossy_stone");
        assert("cliff_limestone"@.subrange(0, 6) =~= "cliff_mossy_stone"@.subrange(0, 6));
        assert(slug_before_at("cliff_limestone"@, "cliff_mossy_stone"@, 6));
    } else if r == 8 {
        reveal_strlit("cliff_mossy_stone");
        reveal_strlit("cliff_old_path");
        assert("cliff_mossy_stone"@.subrange(0, 6) =~= "cliff_old_path"@.subrange(0, 6));
        assert(slug_before_at("cliff_mossy_stone"@, "cliff_old_path"@, 6));
    } else if r == 9 {
        reveal_strlit("cliff_old_path");
        reveal_strlit("cliff_root_crack");
        assert("cliff_old_path"@.subrange(0, 6) =~= "cliff_root_crack"@.subrange(0, 6));
        assert(slug_before_at("cliff_old_path"@, "cliff_root_crack"@, 6));
    } else if r == 10 {
        reveal_strlit("cliff_root_crack");
        reveal_strlit("cliff_ruin_ground");
        assert("cliff_root_crack"@.subrange(0, 7) =~= "cliff_ruin_ground"@.subrange(0, 7));
        assert(slug_before_at("cliff_root_crack"@, "cliff_ruin_ground"@, 7));
    } else if r == 11 {
        reveal_strlit("cliff_ruin_ground");
        reveal_strlit("cliff_sandy_stone");
        assert("cliff_ruin_ground"@.subrange(0, 6) =~= "cliff_sandy_stone"@.subrange(0, 6));
        assert(slug_before_at("cliff_ruin_ground"@, "cliff_sandy_stone"@, 6));
    } else if r == 12 {
        reveal_strlit("cliff_sandy_stone");
        reveal_strlit("cliff_shadowed_grass");
        assert("cliff_sandy_stone"@.subrange(0, 7) =~= "cliff_shadowed_grass"@.subrange(0, 7));
        assert(slug_before_at("cliff_sandy_stone"@, "cliff_shadowed_grass"@, 7));
    } else if r == 13 {
        reveal_strlit("cliff_shadowed_grass");
        reveal_strlit("cliff_stone_top");
        assert("cliff_shadowed_grass"@.subrange(0, 7) =~= "cliff_stone_top"@.subrange(0, 7));
        assert(slug_before_at("cliff_shadowed_grass"@, "cliff_stone_top"@, 7));
    } else if r == 14 {
        reveal_strlit("cliff_stone_top");
        reveal_strlit("cliff_windburn_grass");
        assert("cliff_stone_top"@.subrange(0, 6) =~= "cliff_windburn_grass"@.subrange(0, 6));
        assert(slug_before_at("cliff_stone_top"@, "cliff_windburn_grass"@, 6));
    } else if r == 15 {
        reveal_strlit("cliff_windburn_grass");
        reveal_strlit("haunted_blue_clay");
        assert("cliff_windburn_grass"@.subrange(0, 0) =~= "haunted_blue_clay"@.subrange(0, 0));
        assert(slug_before_at("cliff_windburn_grass"@, "haunted_blue_clay"@, 0));
    } else if r == 16 {
        reveal_strlit("haunted_blue_clay");
        reveal_strlit("haunted_buildable_clearing");
        assert("haunted_blue_clay"@.subrange(0, 9) =~= "haunted_buildable_clearing"@.subrange(0, 9));
        assert(slug_before_at("haunted_blue_clay"@, "haunted_buildable_clearing"@, 9));
    } else if r == 17 {
        reveal_strlit("haunted_buildable_clearing");
        reveal_strlit("haunted_leaf_litter");
        assert("haunted_buildable_clearing"@.subrange(0, 8) =~= "haunted_leaf_litter"@.subrange(0, 8));
        assert(slug_before_at("haunted_buildable_clearing"@, "haunted_leaf_litter"@, 8));
    } else if r == 18 {
        reveal_strlit("haunted_leaf_litter");
        reveal_strlit("haunted_moon_grass");
        assert("haunted_leaf_litter"@.subrange(0, 8) =~= "haunted_moon_grass"@.subrange(0, 8));
        assert(slug_before_at("haunted_leaf_litter"@, "haunted_moon_grass"@, 8));
    } else if r == 19 {
        reveal_strlit("haunted_moon_grass");
        reveal_strlit("haunted_moon_grass_dark");
        assert("haunted_moon_grass"@.subrange(0, 18) =~= "haunted_moon_grass_dark"@.subrange(0, 18));
        assert(slug_before_at("haunted_moon_grass"@, "haunted_moon_grass_dark"@, 18));
    } else if r == 20 {
        reveal_strlit("haunted_moon_grass_dark");
        reveal_strlit("haunted_moon_grass_pale");
        assert("haunted_moon_grass_dark"@.subrange(0, 19) =~= "haunted_moon_grass_pale"@.subrange(0, 19));
        assert(slug_before_at("haunted_moon_grass_dark"@, "haunted_moon_grass_pale"@, 19));
    } else if r == 21 {
        reveal_strlit("haunted_moon_grass_pale");
        reveal_strlit("haunted_moss_soil");
        assert("haunted_moon_grass_pale"@.subrange(0, 10) =~= "haunted_moss_soil"@.subrange(0, 10));
        assert(slug_before_at("haunted_moon_grass_pale"@, "haunted_moss_soil"@, 10));
    } else if r == 22 {
        reveal_strlit("haunted_moss_soil");
        reveal_strlit("haunted_old_path");
        assert("haunted_moss_soil"@.subrange(0, 8) =~= "haunted_old_path"@.subrange(0, 8));
        assert(slug_before_at("haunted_moss_soil"@, "haunted_old_path"@, 8));
    } else if r == 23 {
        reveal_strlit("haunted_old_path");
        reveal_strlit("haunted_pale_mud");
        assert("haunted_old_path"@.subrange(0, 8) =~= "haunted_pale_mud"@.subrange(0, 8));
        assert(slug_before_at("haunted_old_path"@, "haunted_pale_mud"@, 8));
    } else if r == 24 {
        reveal_strlit("haunted_pale_mud");
        reveal_strlit("haunted_pale_stone_mix");
        assert("haunted_pale_mud"@.subrange(0, 13) =~= "haunted_pale_stone_mix"@.subrange(0, 13));
        assert(slug_before_at("haunted_pale_mud"@, "haunted_pale_stone_mix"@, 13));
    } else if r == 25 {
        reveal_strlit("haunted_pale_stone_mix");
        reveal_strlit("haunted_root_soil");
        assert("haunted_pale_stone_mix"@.subrange(0, 8) =~= "haunted_root_soil"@.subrange(0, 8));
        assert(slug_before_at("haunted_pale_stone_mix"@, "haunted_root_soil"@, 8));
    } else if r == 26 {
        reveal_strlit("haunted_root_soil");
        reveal_strlit("haunted_salt_soil");
        assert("haunted_root_soil"@.subrange(0, 8) =~= "haunted_salt_soil"@.subrange(0, 8));
        assert(slug_before_at("haunted_root_soil"@, "haunted_salt_soil"@, 8));
    } else if r == 27 {
        reveal_strlit("haunted_salt_soil");
        reveal_strlit("haunted_shallow_puddle");
        assert("haunted_salt_soil"@.subrange(0, 9) =~= "haunted_shallow_puddle"@.subrange(0, 9));
        assert(slug_before_at("haunted_salt_soil"@, "haunted_shallow_puddle"@, 9));
    } else if r == 28 {
        reveal_strlit("haunted_shallow_puddle");
        reveal_strlit("haunted_sunken_grass");
        assert("haunted_shallow_puddle"@.subrange(0, 9) =~= "haunted_sunken_grass"@.subrange(0, 9));
        assert(slug_before_at("haunted_shallow_puddle"@, "haunted_sunken_grass"@, 9));
    } else if r == 29 {
        reveal_strlit("haunted_sunken_grass");
        reveal_strlit("haunted_wet_soil");
        assert("haunted_sunken_grass"@.subrange(0, 8) =~= "haunted_wet_soil"@.subrange(0, 8));
        assert(slug_before_at("haunted_sunken_grass"@, "haunted_wet_soil"@, 8));
    } else if r == 30 {
        reveal_strlit("haunted_wet_soil");
        reveal_strlit("ocean_deep");
        assert("haunted_wet_soil"@.subrange(0, 0) =~= "ocean_deep"@.subrange(0, 0));
        assert(slug_before_at("haunted_wet_soil"@, "ocean_deep"@, 0));
    } else if r == 31 {
        reveal_strlit("ocean_deep");
        reveal_strlit("ocean_shallow");
        assert("ocean_deep"@.subrange(0, 6) =~= "ocean_shallow"@.subrange(0, 6));
        assert(slug_before_at("ocean_deep"@, "ocean_shallow"@, 6));
    } else if r == 32 {
        reveal_strlit("ocean_shallow");
        reveal_strlit("village_ash_dirt");
        assert("ocean_shallow"@.subrange(0, 0) =~= "village_ash_dirt"@.subrange(0, 0));
        assert(slug_before_at("ocean_shallow"@, "village_ash_dirt"@, 0));
    } else if r == 33 {
        reveal_strlit("village_ash_dirt");
        reveal_strlit("village_clearing_ground");
        assert("village_ash_dirt"@.subrange(0, 8) =~= "village_clearing_ground"@.subrange(0, 8));
        assert(slug_before_at("village_ash_dirt"@, "village_clearing_ground"@, 8));
    } else if r == 34 {
        reveal_strlit("village_clearing_ground");
        reveal_strlit("village_compost_soil");
        assert("village_clearing_ground"@.subrange(0, 9) =~= "village_compost_soil"@.subrange(0, 9));
        assert(slug_before_at("village_clearing_ground"@, "village_compost_soil"@, 9));
    } else if r == 35 {
        reveal_strlit("village_compost_soil");
        reveal_strlit("village_dirt_clean");
        assert("village_compost_soil"@.subrange(0, 8) =~= "village_dirt_clean"@.subrange(0, 8));
        assert(slug_before_at("village_compost_soil"@, "village_dirt_clean"@, 8));
    } else if r == 36 {
        reveal_strlit("village_dirt_clean");
        reveal_strlit("village_dirt_damp");
        assert("village_dirt_clean"@.subrange(0, 13) =~= "village_dirt_damp"@.subrange(0, 13));
        assert(slug_before_at("village_dirt_clean"@, "village_dirt_damp"@, 13));
    } else if r == 37 {
        reveal_strlit("village_dirt_damp");
        reveal_strlit("village_dirt_dry");
        assert("village_dirt_damp"@.subrange(0, 14) =~= "village_dirt_dry"@.subrange(0, 14));
        assert(slug_before_at("village_dirt_damp"@, "village_dirt_dry"@, 14));
    } else if r == 38 {
        reveal_strlit("village_dirt_dry");
        reveal_strlit("village_dirt_grass_mix");
        assert("village_dirt_dry"@.subrange(0, 13) =~= "village_dirt_grass_mix"@.subrange(0, 13));
        assert(slug_before_at("village_dirt_dry"@, "village_dirt_grass_mix"@, 13));
    } else if r == 39 {
        reveal_strlit("village_dirt_grass_mix");
        reveal_strlit("village_dirt_sandy_mix");
        assert("village_dirt_grass_mix"@.subrange(0, 13) =~= "village_dirt_sandy_mix"@.subrange(0, 13));
        assert(slug_before_at("village_dirt_grass_mix"@, "village_dirt_sandy_mix"@, 13));
    } else if r == 40 {
        reveal_strlit("village_dirt_sandy_mix");
        reveal_strlit("village_dirt_stony_mix");
        assert("village_dirt_sandy_mix"@.subrange(0, 14) =~= "village_dirt_stony_mix"@.subrange(0, 14));
        assert(slug_before_at("village_dirt_sandy_mix"@, "village_dirt_stony_mix"@, 14));
    } else if r == 41 {
        reveal_strlit("village_dirt_stony_mix");
        reveal_strlit("village_farm_soil_fresh");
        assert("village_dirt_stony_mix"@.subrange(0, 8) =~= "village_farm_soil_fresh"@.subrange(0, 8));
        assert(slug_before_at("village_dirt_stony_mix"@, "village_farm_soil_fresh"@, 8));
    } else if r == 42 {
        reveal_strlit("village_farm_soil_fresh");
        reveal_strlit("village_farm_soil_old");
        assert("village_farm_soil_fresh"@.subrange(0, 18) =~= "village_farm_soil_old"@.subrange(0, 18));
        assert(slug_before_at("village_farm_soil_fresh"@, "village_farm_soil_old"@, 18));
    } else if r == 43 {
        reveal_strlit("village_farm_soil_old");
        reveal_strlit("village_old_path_dirt");
        assert("village_farm_soil_old"@.subrange(0, 8) =~= "village_old_path_dirt"@.subrange(0, 8));
        assert(slug_before_at("village_farm_soil_old"@, "village_old_path_dirt"@, 8));
    } else if r == 44 {
        reveal_strlit("village_old_path_dirt");
        reveal_strlit("village_sawdust_dirt");
        assert("village_old_path_dirt"@.subrange(0, 8) =~= "village_sawdust_dirt"@.subrange(0, 8));
        assert(slug_before_at("village_old_path_dirt"@, "village_sawdust_dirt"@, 8));
    } else if r == 45 {
        reveal_strlit("village_sawdust_dirt");
        reveal_strlit("village_storage_ground");
        assert("village_sawdust_dirt"@.subrange(0, 9) =~= "village_storage_ground"@.subrange(0, 9));
        assert(slug_before_at("village_sawdust_dirt"@, "village_storage_ground"@, 9));
    } else if r == 46 {
        reveal_strlit("village_storage_ground");
        reveal_strlit("village_tar_stained_dirt");
        assert("village_storage_ground"@.subrange(0, 8) =~= "village_tar_stained_dirt"@.subrange(0, 8));
        assert(slug_before_at("village_storage_ground"@, "village_tar_stained_dirt"@, 8));
    } else if r == 47 {
        reveal_strlit("village_tar_stained_dirt");
        reveal_strlit("village_workyard_dirt");
        assert("village_tar_stained_dirt"@.subrange(0, 8) =~= "village_workyard_dirt"@.subrange(0, 8));
        assert(slug_before_at("village_tar_stained_dirt"@, "village_workyard_dirt"@, 8));
    } else if r == 48 {
        reveal_strlit("village_workyard_dirt");
        reveal_strlit("volcanic_ash_dusted_sand");
        assert("village_workyard_dirt"@.subrange(0, 1) =~= "volcanic_ash_dusted_sand"@.subrange(0, 1));
        assert(slug_before_at("village_workyard_dirt"@, "volcanic_ash_dusted_sand"@, 1));
    } else if r == 49 {
        reveal_strlit("volcanic_ash_dusted_sand");
        reveal_strlit("volcanic_ash_grass_sparse");
        assert("volcanic_ash_dusted_sand"@.subrange(0, 13) =~= "volcanic_ash_grass_sparse"@.subrange(0, 13));
        assert(slug_before_at("volcanic_ash_dusted_sand"@, "volcanic_ash_grass_sparse"@, 13));
    } else if r == 50 {
        reveal_strlit("volcanic_ash_grass_sparse");
        reveal_strlit("volcanic_ash_soil");
        assert("volcanic_ash_grass_sparse"@.subrange(0, 13) =~= "volcanic_ash_soil"@.subrange(0, 13));
        assert(slug_before_at("volcanic_ash_grass_sparse"@, "volcanic_ash_soil"@, 13));
    } else if r == 51 {
        reveal_strlit("volcanic_ash_soil");
        reveal_strlit("volcanic_ash_soil_cracked");
        assert("volcanic_ash_soil"@.subrange(0, 17) =~= "volcanic_ash_soil_cracked"@.subrange(0, 17));
        assert(slug_before_at("volcanic_ash_soil"@, "volcanic_ash_soil_cracked"@, 17));
    } else if r == 52 {
        reveal_strlit("volcanic_ash_soil_cracked");
        reveal_strlit("volcanic_basalt");
        assert("volcanic_ash_soil_cracked"@.subrange(0, 9) =~= "volcanic_basalt"@.subrange(0, 9));
        assert(slug_before_at("volcanic_ash_soil_cracked"@, "volcanic_basalt"@, 9));
    } else if r == 53 {
        reveal_strlit("volcanic_basalt");
        reveal_strlit("volcanic_basalt_cracked");
        assert("volcanic_basalt"@.subrange(0, 15) =~= "volcanic_basalt_cracked"@.subrange(0, 15));
        assert(slug_before_at("volcanic_basalt"@, "volcanic_basalt_cracked"@, 15));
    } else if r == 54 {
        reveal_strlit("volcanic_basalt_cracked");
        reveal_strlit("volcanic_black_sand");
        assert("volcanic_basalt_cracked"@.subrange(0, 10) =~= "volcanic_black_sand"@.subrange(0, 10));
        assert(slug_before_at("volcanic_basalt_cracked"@, "volcanic_black_sand"@, 10));
    } else if r == 55 {
        reveal_strlit("volcanic_black_sand");
        reveal_strlit("volcanic_charred_dirt");
        assert("volcanic_black_sand"@.subrange(0, 9) =~= "volcanic_charred_dirt"@.subrange(0, 9));
        assert(slug_before_at("volcanic_black_sand"@, "volcanic_charred_dirt"@, 9));
    } else if r == 56 {
        reveal_strlit("volcanic_charred_dirt");
        reveal_strlit("volcanic_cooling_lava");
        assert("volcanic_charred_dirt"@.subrange(0, 10) =~= "volcanic_cooling_lava"@.subrange(0, 10));
        assert(slug_before_at("volcanic_charred_dirt"@, "volcanic_cooling_lava"@, 10));
    } else if r == 57 {
        reveal_strlit("volcanic_cooling_lava");
        reveal_strlit("volcanic_ember_grit");
        assert("volcanic_cooling_lava"@.subrange(0, 9) =~= "volcanic_ember_grit"@.subrange(0, 9));
        assert(slug_before_at("volcanic_cooling_lava"@, "volcanic_ember_grit"@, 9));
    } else if r == 58 {
        reveal_strlit("volcanic_ember_grit");
        reveal_strlit("volcanic_forge_ground");
        assert("volcanic_ember_grit"@.subrange(0, 9) =~= "volcanic_forge_ground"@.subrange(0, 9));
        assert(slug_before_at("volcanic_ember_grit"@, "volcanic_forge_ground"@, 9));
    } else if r == 59 {
        reveal_strlit("volcanic_forge_ground");
        reveal_strlit("volcanic_lava_crack");
        assert("volcanic_forge_ground"@.subrange(0, 9) =~= "volcanic_lava_crack"@.subrange(0, 9));
        assert(slug_before_at("volcanic_forge_ground"@, "volcanic_lava_crack"@, 9));
    } else if r == 60 {
        reveal_strlit("volcanic_lava_crack");
        reveal_strlit("volcanic_obsidian_shard");
        assert("volcanic_lava_crack"@.subrange(0, 9) =~= "volcanic_obsidian_shard"@.subrange(0, 9));
        assert(slug_before_at("volcanic_lava_crack"@, "volcanic_obsidian_shard"@, 9));
    } else if r == 61 {
        reveal_strlit("volcanic_obsidian_shard");
        reveal_strlit("volcanic_red_hot_stone");
        assert("volcanic_obsidian_shard"@.subrange(0, 9) =~= "volcanic_red_hot_stone"@.subrange(0, 9));
        assert(slug_before_at("volcanic_obsidian_shard"@, "volcanic_red_hot_stone"@, 9));
    } else if r == 62 {
        reveal_strlit("volcanic_red_hot_stone");
        reveal_strlit("volcanic_steam_scarred");
        assert("volcanic_red_hot_stone"@.subrange(0, 9) =~= "volcanic_steam_scarred"@.subrange(0, 9));
        assert(slug_before_at("volcanic_red_hot_stone"@, "volcanic_steam_scarred"@, 9));
    } else if r == 63 {
        reveal_strlit("volcanic_steam_scarred");
        reveal_strlit("volcanic_sulfur_stain");
        assert("volcanic_steam_scarred"@.subrange(0, 10) =~= "volcanic_sulfur_stain"@.subrange(0, 10));
        assert(slug_before_at("volcanic_steam_scarred"@, "volcanic_sulfur_stain"@, 10));
    }
}

/// Slugs of lower rank come first.
proof fn lemma_rank_chain(r1: int, r2: int)
    requires
        0 <= r1 < r2 <= 64,
    ensures
        slug_before(spec_surface_slug(surface_of_rank(r1)), spec_surface_slug(surface_of_rank(r2))),
    decreases r2 - r1,
{
    lemma_rank_step(r2 - 1);
    if r1 < r2 - 1 {
        lemma_rank_chain(r1, r2 - 1);
        lemma_before_trans(
            spec_surface_slug(surface_of_rank(r1)),
            spec_surface_slug(surface_of_rank(r2 - 1)),
            spec_surface_slug(surface_of_rank(r2)),
        );
    }
}

/// The slug rank is the order of the slugs: one surface ranks below another
/// exactly when its slug sorts first.
pub proof fn law_slug_rank_is_slug_order(x: SurfaceId, y: SurfaceId)
    ensures
        (spec_slug_rank(x) < spec_slug_rank(y)) == slug_before(spec_surface_slug(x), spec_surface_slug(y)),
{
    lemma_slug_rank_injective(x);
    lemma_slug_rank_injective(y);
    let rx = spec_slug_rank(x);
    let ry = spec_slug_rank(y);
    if rx < ry {
        lemma_rank_chain(rx, ry);
    } else if ry < rx {
        lemma_rank_chain(ry, rx);
        lemma_before_asym(spec_surface_slug(y), spec_surface_slug(x));
    } else if slug_before(spec_surface_slug(x), spec_surface_slug(y)) {
        lemma_before_asym(spec_surface_slug(x), spec_surface_slug(y));
    }
}

} // verus!

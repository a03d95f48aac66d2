//! Terrain vocabulary of staged island generation: biomes, terrain roles,
//! surface tiles, transition masks and per-cell data.

use vstd::prelude::*;

verus! {

/// Land biome of an island half.
#[derive(Clone, Copy, Debug, PartialEq, Eq, Hash, Structural)]
pub enum Biome {
    Haunted,
    Volcanic,
    Cliff,
}

/// Display label of a biome.
pub open spec fn biome_label(b: Biome) -> Seq<char> {
    match b {
        Biome::Haunted => "Haunted"@,
        Biome::Volcanic => "Volcanic"@,
        Biome::Cliff => "Cliff"@,
    }
}

impl Biome {
    /// Display label.
    pub fn label(self) -> (r: &'static str)
        ensures
            r@ == biome_label(self),
    {
        match self {
            Biome::Haunted => "Haunted",
            Biome::Volcanic => "Volcanic",
            Biome::Cliff => "Cliff",
        }
    }
}

/// Coarse tier used for intra-biome blending: a large `Ground` field with
/// smaller `Accent` patches grown on top.
#[derive(Clone, Copy, Debug, PartialEq, Eq, Structural)]
pub enum SurfaceTier {
    Ground,
    Accent,
}

/// Structural role of a cell: ocean bands, beach bands and interior land.
#[derive(Clone, Copy, Debug, PartialEq, Eq, Hash, Structural)]
pub enum TerrainRole {
    OceanDeep,
    OceanShallow,
    LandBlank,
    BeachOuter,
    BeachMid,
    BeachInner,
    Interior,
    BiomeSeam,
    Clearing,
    SpecialScar,
}

/// Patch class of a role, used by patch statistics.
#[derive(Clone, Copy, Debug, PartialEq, Eq, Structural)]
pub enum PatchCategory {
    Ocean,
    Beach,
    Interior,
    Scar,
}

impl TerrainRole {
    pub open spec fn land(self) -> bool {
        !(self == TerrainRole::OceanDeep || self == TerrainRole::OceanShallow)
    }

    pub open spec fn ocean(self) -> bool {
        self == TerrainRole::OceanDeep || self == TerrainRole::OceanShallow
    }

    pub open spec fn beach(self) -> bool {
        self == TerrainRole::BeachOuter || self == TerrainRole::BeachMid || self == TerrainRole::BeachInner
    }

    /// Every role except the two ocean roles is land.
    pub fn is_land(self) -> (r: bool)
        ensures
            r == self.land(),
    {
        !matches!(self, TerrainRole::OceanDeep | TerrainRole::OceanShallow)
    }

    /// Deep and shallow ocean.
    pub fn is_ocean(self) -> (r: bool)
        ensures
            r == self.ocean(),
    {
        matches!(self, TerrainRole::OceanDeep | TerrainRole::OceanShallow)
    }

    /// The three beach bands.
    pub fn is_beach(self) -> (r: bool)
        ensures
            r == self.beach(),
    {
        matches!(self, TerrainRole::BeachOuter | TerrainRole::BeachMid | TerrainRole::BeachInner)
    }

    /// Biome influence applies to interior land; the inner beach band may
    /// inherit biome tint.
    pub fn allows_biome_paint(self) -> (r: bool)
        ensures
            r == (self == TerrainRole::Interior || self == TerrainRole::BiomeSeam
                || self == TerrainRole::SpecialScar || self == TerrainRole::Clearing
                || self == TerrainRole::LandBlank || self == TerrainRole::BeachInner),
    {
        matches!(
            self,
            TerrainRole::Interior | TerrainRole::BiomeSeam | TerrainRole::SpecialScar
                | TerrainRole::Clearing | TerrainRole::LandBlank | TerrainRole::BeachInner
        )
    }

    pub open spec fn spec_patch_category(self) -> PatchCategory {
        if self.ocean() {
            PatchCategory::Ocean
        } else if self.beach() {
            PatchCategory::Beach
        } else if self == TerrainRole::SpecialScar {
            PatchCategory::Scar
        } else {
            PatchCategory::Interior
        }
    }

    /// Patch class: ocean, beach, scar, or interior for everything else.
    pub fn patch_category(self) -> (r: PatchCategory)
        ensures
            r == self.spec_patch_category(),
    {
        if self.is_ocean() {
            PatchCategory::Ocean
        } else if self.is_beach() {
            PatchCategory::Beach
        } else if self == TerrainRole::SpecialScar {
            PatchCategory::Scar
        } else {
            PatchCategory::Interior
        }
    }
}

/// Every surface tile the generator can paint.
#[derive(Clone, Copy, Debug, PartialEq, Eq, Hash, Structural)]
pub enum SurfaceId {
    OceanDeep,
    OceanShallow,
    VolcanicBlackSand,
    VolcanicAshDustedSand,
    VolcanicCharredDirt,
    VolcanicAshSoil,
    VolcanicAshSoilCracked,
    VolcanicBasalt,
    VolcanicSulfurStain,
    VolcanicLavaCrack,
    VolcanicCoolingLava,
    VolcanicEmberGrit,
    VolcanicBasaltCracked,
    VolcanicAshGrassSparse,
    VolcanicObsidianShard,
    VolcanicForgeGround,
    VolcanicSteamScarred,
    VolcanicRedHotStone,
    HauntedWetSoil,
    HauntedSaltSoil,
    HauntedBlueClay,
    HauntedPaleMud,
    HauntedBuildableClearing,
    HauntedMoonGrass,
    HauntedMoonGrassDark,
    HauntedMoonGrassPale,
    HauntedMossSoil,
    HauntedRootSoil,
    HauntedLeafLitter,
    HauntedPaleStoneMix,
    HauntedOldPath,
    HauntedSunkenGrass,
    HauntedShallowPuddle,
    VillageWorkyardDirt,
    VillageDirtSandyMix,
    VillageDirtStonyMix,
    VillageDirtClean,
    VillageStorageGround,
    VillageTarStainedDirt,
    VillageSawdustDirt,
    VillageDirtDry,
    VillageFarmSoilOld,
    VillageClearingGround,
    VillageAshDirt,
    VillageDirtGrassMix,
    VillageCompostSoil,
    VillageFarmSoilFresh,
    VillageOldPathDirt,
    VillageDirtDamp,
    CliffGrassTop,
    CliffStoneTop,
    CliffDirtTop,
    CliffMossyStone,
    CliffCrackedStone,
    CliffDarkSlate,
    CliffDryScrub,
    CliffGravelTop,
    CliffLimestone,
    CliffOldPath,
    CliffRootCrack,
    CliffRuinGround,
    CliffSandyStone,
    CliffShadowedGrass,
    CliffWindburnGrass,
    CliffBuildablePlateau,
}

/// Mask shape of a composited transition between two surfaces.
#[derive(Clone, Copy, Debug, PartialEq, Eq, Hash, Structural)]
pub enum TransitionMask {
    VerticalRough,
    HorizontalRough,
    DiagonalNe,
    DiagonalNw,
    CornerNe,
    CornerNw,
    CornerSe,
    CornerSw,
    SquiggleA,
    SquiggleB,
    Speckle,
    /// Overlay on the left half (minority west).
    VerticalRoughLeft,
    /// Overlay on the top half (minority north).
    HorizontalRoughTop,
    /// Soft circular blend for biome seam tiles.
    OrganicBlob,
}

/// A composited display-block transition: `overlay` blended over `base`.
#[derive(Clone, Copy, Debug, PartialEq, Eq, Hash, Structural)]
pub struct TransitionSpec {
    pub base: SurfaceId,
    pub overlay: SurfaceId,
    pub mask: TransitionMask,
    pub variant: u8,
}

/// Discrete data of one 32 px logic cell. Cell heights are float noise
/// samples and are kept beside the grid by the caller.
#[derive(Clone, Copy, Debug, PartialEq, Eq, Structural)]
pub struct CellData {
    pub role: TerrainRole,
    /// When true, `role` must not be changed by later pipeline stages.
    pub role_locked: bool,
    pub biome: Option<Biome>,
    /// Seam marker between biomes; does not replace beach/ocean roles.
    pub biome_seam: bool,
    pub surface: SurfaceId,
    pub dist_to_water: u16,
    pub patch_id: u32,
    pub transition: Option<TransitionSpec>,
}

/// The deep-ocean cell every grid starts from.
pub open spec fn default_cell() -> CellData {
    CellData {
        role: TerrainRole::OceanDeep,
        role_locked: true,
        biome: None,
        biome_seam: false,
        surface: SurfaceId::OceanDeep,
        dist_to_water: 0,
        patch_id: 0,
        transition: None,
    }
}

impl Default for CellData {
    fn default() -> (r: Self)
        ensures
            r == default_cell(),
    {
        CellData {
            role: TerrainRole::OceanDeep,
            role_locked: true,
            biome: None,
            biome_seam: false,
            surface: SurfaceId::OceanDeep,
            dist_to_water: 0,
            patch_id: 0,
            transition: None,
        }
    }
}

/// Island health counters shown by the lab.
#[derive(Clone, Copy, Debug, PartialEq, Eq, Structural)]
pub struct GridStats {
    pub ocean: u32,
    pub land: u32,
    pub beach_outer: u32,
    pub beach_mid: u32,
    pub beach_inner: u32,
    pub interior: u32,
    pub haunted: u32,
    pub volcanic: u32,
    pub biome_seam: u32,
    pub patch_ids: u32,
    pub transition_cells: u32,
    pub display_transitions: u32,
    pub role_locked: u32,
    /// Smallest connected interior same-surface component (cells).
    pub min_patch_size: u32,
    /// Median connected interior same-surface component (cells).
    pub median_patch_size: u32,
    /// Count of single-cell interior components.
    pub isolated_tiles: u32,
    /// Interior ocean cells filled with land during mask cleanup.
    pub interior_holes_filled: u32,
}

impl Default for GridStats {
    fn default() -> (r: Self)
        ensures
            r == (GridStats {
                ocean: 0,
                land: 0,
                beach_outer: 0,
                beach_mid: 0,
                beach_inner: 0,
                interior: 0,
                haunted: 0,
                volcanic: 0,
                biome_seam: 0,
                patch_ids: 0,
                transition_cells: 0,
                display_transitions: 0,
                role_locked: 0,
                min_patch_size: 0,
                median_patch_size: 0,
                isolated_tiles: 0,
                interior_holes_filled: 0,
            }),
    {
        GridStats {
            ocean: 0,
            land: 0,
            beach_outer: 0,
            beach_mid: 0,
            beach_inner: 0,
            interior: 0,
            haunted: 0,
            volcanic: 0,
            biome_seam: 0,
            patch_ids: 0,
            transition_cells: 0,
            display_transitions: 0,
            role_locked: 0,
            min_patch_size: 0,
            median_patch_size: 0,
            isolated_tiles: 0,
            interior_holes_filled: 0,
        }
    }
}

} // verus!

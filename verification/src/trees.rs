//! Starter-island trees: species per biome, growth, sex and fruit, decided
//! per tree slot by a deterministic cell hash. Positions, separation and
//! sprites are the renderer's.

use vstd::prelude::*;
use crate::starter::Biome;

verus! {

/// Native trees: the volcanic Ashen Laurel and the haunted Moon Willow.
#[derive(Clone, Copy, Debug, PartialEq, Eq, Structural)]
pub enum TreeSpecies {
    AshenLaurel,
    MoonWillow,
}

/// Fruits: Brineberry (volcanic) and Ghost Pear (haunted).
#[derive(Clone, Copy, Debug, PartialEq, Eq, Structural)]
pub enum FruitKind {
    Brineberry,
    GhostPear,
}

/// Growth of a tree.
#[derive(Clone, Copy, Debug, PartialEq, Eq, Structural)]
pub enum GrowthState {
    Sapling,
    Mature,
    Stump,
}

/// Sex of a tree; only female trees bear fruit.
#[derive(Clone, Copy, Debug, PartialEq, Eq, Structural)]
pub enum TreeSex {
    Male,
    Female,
}

/// Trees per cell at most.
pub const MAX_TREES_PER_CELL: u8 = 2;
pub const MIN_FRUIT_PER_TREE: u8 = 3;
pub const MAX_FRUIT_PER_TREE: u8 = 6;
pub const SALT_TREE: u32 = 0x7E4E01;
pub const SALT_GROW: u32 = 0x7E4E02;
pub const SALT_SEX: u32 = 0x7E4E03;
pub const SALT_FRUIT_COUNT: u32 = 0x7E4E05;
/// Chance, in percent, that a tree slot of an eligible cell holds a tree.
pub const TREE_CELL_CHANCE: u32 = 4;

impl TreeSpecies {
    /// Asset folder of the species.
    pub fn folder(self) -> (r: &'static str)
        ensures
            r@ == species_folder(self),
    {
        match self {
            TreeSpecies::AshenLaurel => "ashen-laurel",
            TreeSpecies::MoonWillow => "moon-willow",
        }
    }

    /// The species native to a biome.
    pub fn from_biome(biome: Biome) -> (r: TreeSpecies)
        ensures
            r == (match biome { Biome::Volcanic => TreeSpecies::AshenLaurel, Biome::Haunted => TreeSpecies::MoonWillow }),
    {
        match biome {
            Biome::Volcanic => TreeSpecies::AshenLaurel,
            Biome::Haunted => TreeSpecies::MoonWillow,
        }
    }

    /// The fruit the species bears.
    pub fn default_fruit(self) -> (r: FruitKind)
        ensures
            r == (match self { TreeSpecies::AshenLaurel => FruitKind::Brineberry, TreeSpecies::MoonWillow => FruitKind::GhostPear }),
    {
        match self {
            TreeSpecies::AshenLaurel => FruitKind::Brineberry,
            TreeSpecies::MoonWillow => FruitKind::GhostPear,
        }
    }

    /// Whether the species bears `fruit`.
    pub fn can_bear(self, fruit: FruitKind) -> (r: bool)
        ensures
            r == ((self == TreeSpecies::AshenLaurel && fruit == FruitKind::Brineberry) || (self == TreeSpecies::MoonWillow
                && fruit == FruitKind::GhostPear)),
    {
        match (self, fruit) {
            (TreeSpecies::AshenLaurel, FruitKind::Brineberry) | (TreeSpecies::MoonWillow, FruitKind::GhostPear) => true,
            _ => false,
        }
    }
}

impl FruitKind {
    /// Asset folder of the fruit.
    pub fn folder(self) -> (r: &'static str)
        ensures
            r@ == (match self { FruitKind::Brineberry => "brine-berry"@, FruitKind::GhostPear => "ghost-pear"@ }),
    {
        match self {
            FruitKind::Brineberry => "brine-berry",
            FruitKind::GhostPear => "ghost-pear",
        }
    }
}

impl GrowthState {
    /// File stem of the growth's sprite.
    pub fn file_stem(self) -> (r: &'static str)
        ensures
            r@ == growth_stem(self),
    {
        match self {
            GrowthState::Sapling => "sapling",
            GrowthState::Mature => "mature",
            GrowthState::Stump => "stump",
        }
    }
}

/// Deterministic hash of a cell with a salt.
pub open spec fn spec_cell_hash(col: i32, row: i32, salt: u32) -> u32 {
    let h0 = (col as u32).wrapping_mul(73_856_093) ^ (row as u32).wrapping_mul(19_349_663) ^ salt;
    let h1 = h0 ^ (h0 >> 13u32);
    let h2 = h1.wrapping_mul(1_274_126_177);
    h2 ^ (h2 >> 16u32)
}

/// Deterministic hash of a cell with a salt.
pub fn cell_hash(col: i32, row: i32, salt: u32) -> (r: u32)
    ensures
        r == spec_cell_hash(col, row, salt),
{
    let mut h = (col as u32).wrapping_mul(73_856_093) ^ (row as u32).wrapping_mul(19_349_663) ^ salt;
    h = h ^ (h >> 13u32);
    h = h.wrapping_mul(1_274_126_177);
    h ^ (h >> 16u32)
}

/// The tree a slot holds.
#[derive(Clone, Copy, Debug, PartialEq, Eq, Structural)]
pub struct TreePlan {
    pub species: TreeSpecies,
    pub growth: GrowthState,
    pub sex: TreeSex,
    pub fruit: Option<FruitKind>,
    pub fruit_count: u8,
}

/// Growth from a roll in 0..100: 8 % stumps, 14 % saplings, the rest mature.
pub open spec fn growth_for_roll(roll: u32) -> GrowthState {
    if roll < 8 { GrowthState::Stump } else if roll < 22 { GrowthState::Sapling } else { GrowthState::Mature }
}

/// The tree of slot `slot` of cell `(col, row)` of biome `biome`: none unless
/// the slot's roll is under the tree chance; otherwise the biome's species
/// with hashed growth and sex, and 3 to 6 fruit on mature female trees.
pub open spec fn spec_tree_plan(col: i32, row: i32, slot: u8, biome: Biome) -> Option<TreePlan> {
    if spec_cell_hash(col, row, (SALT_TREE + slot) as u32) % 100 >= TREE_CELL_CHANCE {
        None
    } else {
        let species = match biome { Biome::Volcanic => TreeSpecies::AshenLaurel, Biome::Haunted => TreeSpecies::MoonWillow };
        let growth = growth_for_roll(spec_cell_hash(col, row, (SALT_GROW + slot) as u32) % 100);
        let sex = if spec_cell_hash(col, row, (SALT_SEX + slot) as u32) % 2 == 0 { TreeSex::Male } else { TreeSex::Female };
        let fruit_count: u8 = if growth == GrowthState::Mature && sex == TreeSex::Female {
            (3 + spec_cell_hash(col, row, (SALT_FRUIT_COUNT + slot) as u32) % 4) as u8
        } else {
            0
        };
        let fruit = if fruit_count > 0 {
            Some(match species { TreeSpecies::AshenLaurel => FruitKind::Brineberry, TreeSpecies::MoonWillow => FruitKind::GhostPear })
        } else {
            None
        };
        Some(TreePlan { species, growth, sex, fruit, fruit_count })
    }
}

/// The tree of one slot of a cell.
pub fn plan_tree_slot(col: i32, row: i32, slot: u8, biome: Biome) -> (r: Option<TreePlan>)
    requires
        slot < 2,
    ensures
        r == spec_tree_plan(col, row, slot, biome),
        r matches Some(p) ==> p.fruit_count == 0 || (3 <= p.fruit_count <= 6),
{
    let roll = cell_hash(col, row, SALT_TREE + slot as u32) % 100;
    if roll >= TREE_CELL_CHANCE {
        return None;
    }
    let species = TreeSpecies::from_biome(biome);
    let growth_roll = cell_hash(col, row, SALT_GROW + slot as u32) % 100;
    let growth = if growth_roll < 8 {
        GrowthState::Stump
    } else if growth_roll < 22 {
        GrowthState::Sapling
    } else {
        GrowthState::Mature
    };
    let sex_roll = cell_hash(col, row, SALT_SEX + slot as u32) % 2;
    let sex = if sex_roll == 0 { TreeSex::Male } else { TreeSex::Female };
    let fruit_kind = species.default_fruit();
    let fruit_count: u8 = if growth == GrowthState::Mature && sex == TreeSex::Female && species.can_bear(fruit_kind) {
        let extra = cell_hash(col, row, SALT_FRUIT_COUNT + slot as u32) % 4;
        MIN_FRUIT_PER_TREE + extra as u8
    } else {
        0
    };
    let fruit = if fruit_count > 0 { Some(fruit_kind) } else { None };
    Some(TreePlan { species, growth, sex, fruit, fruit_count })
}

/// A planned tree is of the species native to its cell's biome (moon willow
/// in the haunted biome, ashen laurel in the volcanic one); it bears fruit
/// exactly when it is a mature female, 3 to 6 of them, always of its own
/// species' kind (ghost pears on moon willows, brineberries on laurels); and
/// both slots of a cell plant the same species. A slot holds a tree when its
/// roll is under 4 in 100; the growth roll gives a stump under 8, a sapling
/// under 22 and a mature tree otherwise; an odd sex roll gives a female.
pub proof fn law_tree_plan_native(col: i32, row: i32, slot: u8, biome: Biome)
    ensures
        spec_tree_plan(col, row, slot, biome) matches Some(p) ==> {
            &&& (biome == Biome::Haunted ==> p.species == TreeSpecies::MoonWillow)
            &&& (biome == Biome::Volcanic ==> p.species == TreeSpecies::AshenLaurel)
            &&& (p.fruit_count > 0 <==> p.growth == GrowthState::Mature && p.sex == TreeSex::Female)
            &&& (p.fruit_count > 0 ==> 3 <= p.fruit_count <= 6)
            &&& (p.fruit is Some <==> p.fruit_count > 0)
            &&& (p.fruit == Some(FruitKind::GhostPear) ==> p.species == TreeSpecies::MoonWillow)
            &&& (p.fruit == Some(FruitKind::Brineberry) ==> p.species == TreeSpecies::AshenLaurel)
        },
        (spec_tree_plan(col, row, slot, biome) is Some) == (spec_cell_hash(col, row, (SALT_TREE + slot) as u32) % 100 < 4),
        spec_tree_plan(col, row, slot, biome) matches Some(p) ==> {
            let g = spec_cell_hash(col, row, (SALT_GROW + slot) as u32) % 100;
            &&& (g < 8 ==> p.growth == GrowthState::Stump)
            &&& (8 <= g < 22 ==> p.growth == GrowthState::Sapling)
            &&& (g >= 22 ==> p.growth == GrowthState::Mature)
            &&& (p.sex == TreeSex::Female <==> spec_cell_hash(col, row, (SALT_SEX + slot) as u32) % 2 == 1)
        },
        spec_tree_plan(col, row, slot, biome) is Some && spec_tree_plan(col, row, (1 - slot) as u8, biome) is Some
            ==> spec_tree_plan(col, row, slot, biome)->0.species == spec_tree_plan(col, row, (1 - slot) as u8, biome)->0.species,
{
}

/// Whether a cell can hold trees: land without cliffs and with a free slot.
pub fn tree_cell_eligible(land: bool, cliff_mask: u8, tree_count: u8) -> (r: bool)
    ensures
        r == (land && cliff_mask == 0 && tree_count < 2),
{
    land && cliff_mask == 0 && tree_count < MAX_TREES_PER_CELL
}

/// Asset folder of a species.
pub open spec fn species_folder(s: TreeSpecies) -> Seq<char> {
    match s { TreeSpecies::AshenLaurel => "ashen-laurel"@, TreeSpecies::MoonWillow => "moon-willow"@ }
}

/// File stem of a growth.
pub open spec fn growth_stem(g: GrowthState) -> Seq<char> {
    match g { GrowthState::Sapling => "sapling"@, GrowthState::Mature => "mature"@, GrowthState::Stump => "stump"@ }
}

/// Asset path of a tree sprite: the growth's sprite of the species.
pub fn tree_texture_path(species: TreeSpecies, growth: GrowthState) -> (r: String)
    ensures
        r@ == "runtime/props/flora/trees/"@ + species_folder(species) + "/"@ + growth_stem(growth) + ".png"@,
{
    let mut s = String::new();
    s.append("runtime/props/flora/trees/");
    s.append(species.folder());
    s.append("/");
    s.append(growth.file_stem());
    s.append(".png");
    assert(s@ =~= "runtime/props/flora/trees/"@ + species_folder(species) + "/"@ + growth_stem(growth) + ".png"@);
    s
}

} // verus!

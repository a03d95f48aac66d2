//! Which lab scene is shown: the boot choice and the number-key switches.

use vstd::prelude::*;

verus! {

/// Lab scene routing state; `Inactive` shows nothing (the main menus).
#[derive(Clone, Copy, Debug, PartialEq, Eq, Hash, Structural)]
pub enum LabScene {
    Inactive,
    OceanTiles,
    /// Dual-grid shallow-water and beach shoreline showcase.
    ShallowShore,
    CombatSandbox,
    ShipSandbox,
    /// Crew patrol on a small starter island (animation lab).
    StarterIsland,
    /// Staged procedural home-island generation test bed.
    IslandGen,
}

impl Default for LabScene {
    fn default() -> (r: Self)
        ensures
            r == LabScene::Inactive,
    {
        LabScene::Inactive
    }
}

/// Scene the standalone lab boots into: the scene named by the lab-world
/// setting when it names one, else the island generation lab.
pub fn boot_scene(requested: Option<LabScene>) -> (r: LabScene)
    ensures
        r == (match requested {
            Some(s) => s,
            None => LabScene::IslandGen,
        }),
{
    match requested {
        Some(s) => s,
        None => LabScene::IslandGen,
    }
}

/// Scene switch asked by this frame's keys, the last request winning: `0`
/// asks for the starter island, `9` for island generation, and on the
/// starter island the digits `1`-`5` keep it. `None` asks for no switch.
pub fn scene_after_hotkeys(current: LabScene, zero: bool, nine: bool, one_to_five: bool) -> (r: Option<LabScene>)
    ensures
        r == (if current == LabScene::StarterIsland && one_to_five {
            Some(LabScene::StarterIsland)
        } else if nine {
            Some(LabScene::IslandGen)
        } else if zero {
            Some(LabScene::StarterIsland)
        } else {
            None
        }),
{
    let mut next: Option<LabScene> = None;
    if zero {
        next = Some(LabScene::StarterIsland);
    }
    if nine {
        next = Some(LabScene::IslandGen);
    }
    if current == LabScene::StarterIsland && one_to_five {
        next = Some(LabScene::StarterIsland);
    }
    next
}

/// The lab worlds offered on the world-select screen, in display order.
pub open spec fn spec_lab_worlds() -> Seq<Seq<char>> {
    seq!["Ocean Tiles"@, "Shallow Shore"@, "Combat Sandbox"@, "Ship Sandbox"@]
}

/// The lab worlds offered on the world-select screen, in display order.
pub fn lab_worlds() -> (r: Vec<&'static str>)
    ensures
        r@.len() == 4,
        forall|i: int| 0 <= i < 4 ==> (#[trigger] r@[i])@ == spec_lab_worlds()[i],
{
    vec!["Ocean Tiles", "Shallow Shore", "Combat Sandbox", "Ship Sandbox"]
}

/// The scene a lab world of the list launches: ocean tiles, shallow shore,
/// combat sandbox and ship sandbox in list order; `None` past the list.
pub open spec fn spec_lab_scene_for(index: int) -> Option<LabScene> {
    if index == 0 {
        Some(LabScene::OceanTiles)
    } else if index == 1 {
        Some(LabScene::ShallowShore)
    } else if index == 2 {
        Some(LabScene::CombatSandbox)
    } else if index == 3 {
        Some(LabScene::ShipSandbox)
    } else {
        None
    }
}

/// Exec form of `spec_lab_scene_for`.
pub fn lab_scene_for(index: usize) -> (r: Option<LabScene>)
    ensures
        r == spec_lab_scene_for(index as int),
{
    match index {
        0 => Some(LabScene::OceanTiles),
        1 => Some(LabScene::ShallowShore),
        2 => Some(LabScene::CombatSandbox),
        3 => Some(LabScene::ShipSandbox),
        _ => None,
    }
}

/// The world list and the scene mapping line up: an index names a listed
/// lab world exactly when it launches a scene, and different worlds launch
/// different scenes.
pub proof fn law_lab_worlds_match_scenes(i: int, j: int)
    requires
        0 <= i,
        0 <= j,
    ensures
        (i < spec_lab_worlds().len()) <==> spec_lab_scene_for(i) is Some,
        i != j && spec_lab_scene_for(i) is Some ==> spec_lab_scene_for(i) != spec_lab_scene_for(j),
{
}

} // verus!

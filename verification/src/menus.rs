//! Front-end menu navigation: what each title-menu and world-select button
//! does, and where character creation leads. Buttons and screens are drawn
//! by the engine.

use vstd::prelude::*;
use crate::lab_scene::{LabScene, lab_scene_for, spec_lab_scene_for};

verus! {

/// Screens of the game front end.
#[derive(Clone, Copy, Debug, PartialEq, Eq, Hash, Structural)]
pub enum GameState {
    MainMenu,
    WorldSelect,
    CharacterSelect,
    CharacterCreation,
    InLab,
}

/// Buttons of the title menu.
#[derive(Clone, Copy, Debug, PartialEq, Eq, Structural)]
pub enum MenuAction {
    Play,
    CharacterSelect,
    ShipyardTavern,
    Quit,
}

/// Where a pressed button leads.
#[derive(Clone, Copy, Debug, PartialEq, Eq, Structural)]
pub enum MenuOutcome {
    /// Switch to another screen.
    Enter(GameState),
    /// Switch to the lab, into this scene.
    EnterLab(LabScene),
    /// Leave the game.
    Exit,
    /// The button leads somewhere not built yet: stay.
    Stay,
}

/// The title menu's buttons top to bottom, with their captions.
pub open spec fn spec_title_menu_buttons() -> Seq<(MenuAction, Seq<char>)> {
    seq![
        (MenuAction::Play, "PLAY"@),
        (MenuAction::CharacterSelect, "CHARACTER SELECT"@),
        (MenuAction::ShipyardTavern, "SHIPYARD TAVERN"@),
        (MenuAction::Quit, "QUIT"@),
    ]
}

/// Exec form of `spec_title_menu_buttons`.
pub fn title_menu_buttons() -> (r: Vec<(MenuAction, &'static str)>)
    ensures
        r@.len() == spec_title_menu_buttons().len(),
        forall|k: int| 0 <= k < r@.len() ==> (#[trigger] r@[k]).0 == spec_title_menu_buttons()[k].0
            && r@[k].1@ == spec_title_menu_buttons()[k].1,
{
    vec![
        (MenuAction::Play, "PLAY"),
        (MenuAction::CharacterSelect, "CHARACTER SELECT"),
        (MenuAction::ShipyardTavern, "SHIPYARD TAVERN"),
        (MenuAction::Quit, "QUIT"),
    ]
}

/// Play opens world select, Character Select its screen, Quit leaves; the
/// shipyard tavern is not built yet.
pub fn title_menu_outcome(action: MenuAction) -> (r: MenuOutcome)
    ensures
        action == MenuAction::Play ==> r == MenuOutcome::Enter(GameState::WorldSelect),
        action == MenuAction::CharacterSelect ==> r == MenuOutcome::Enter(GameState::CharacterSelect),
        action == MenuAction::ShipyardTavern ==> r == MenuOutcome::Stay,
        action == MenuAction::Quit ==> r == MenuOutcome::Exit,
{
    match action {
        MenuAction::Play => MenuOutcome::Enter(GameState::WorldSelect),
        MenuAction::CharacterSelect => MenuOutcome::Enter(GameState::CharacterSelect),
        MenuAction::ShipyardTavern => MenuOutcome::Stay,
        MenuAction::Quit => MenuOutcome::Exit,
    }
}

/// Buttons of the world-select screen.
#[derive(Clone, Copy, Debug, PartialEq, Eq, Structural)]
pub enum WorldAction {
    Back,
    /// Load the lab world at this index of the lab-world list.
    LoadLabWorld(usize),
    /// Create a new player world (not built yet).
    CreateNewWorld,
}

/// Back returns to the title menu; a lab world enters the lab in its scene
/// (an index past the list stays); creating a world is not built yet.
pub fn world_select_outcome(action: WorldAction) -> (r: MenuOutcome)
    ensures
        action == WorldAction::Back ==> r == MenuOutcome::Enter(GameState::MainMenu),
        action == WorldAction::CreateNewWorld ==> r == MenuOutcome::Stay,
        action matches WorldAction::LoadLabWorld(i) ==> r == (match spec_lab_scene_for(i as int) {
            Some(scene) => MenuOutcome::EnterLab(scene),
            None => MenuOutcome::Stay,
        }),
{
    match action {
        WorldAction::Back => MenuOutcome::Enter(GameState::MainMenu),
        WorldAction::LoadLabWorld(index) => match lab_scene_for(index) {
            Some(scene) => MenuOutcome::EnterLab(scene),
            None => MenuOutcome::Stay,
        },
        WorldAction::CreateNewWorld => MenuOutcome::Stay,
    }
}

/// Buttons of the character-creation screen.
#[derive(Clone, Copy, Debug, PartialEq, Eq, Structural)]
pub enum CreateAction {
    Back,
    /// Pick the class at this index of the class list.
    SelectClass(usize),
    Confirm,
}

/// Back returns to character select, as does a confirmed creation
/// (`created`); picking a class, or a refused confirmation, stays.
pub fn creation_outcome(action: CreateAction, created: bool) -> (r: MenuOutcome)
    ensures
        action == CreateAction::Back ==> r == MenuOutcome::Enter(GameState::CharacterSelect),
        action matches CreateAction::SelectClass(_) ==> r == MenuOutcome::Stay,
        action == CreateAction::Confirm ==> r == (if created {
            MenuOutcome::Enter(GameState::CharacterSelect)
        } else {
            MenuOutcome::Stay
        }),
{
    match action {
        CreateAction::Back => MenuOutcome::Enter(GameState::CharacterSelect),
        CreateAction::SelectClass(_) => MenuOutcome::Stay,
        CreateAction::Confirm => if created {
            MenuOutcome::Enter(GameState::CharacterSelect)
        } else {
            MenuOutcome::Stay
        },
    }
}

} // verus!

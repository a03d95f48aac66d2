//! Direct control of one starter-island crew member: input modes, sprint
//! latching, loadout keys, movement and attack requests, with the HUD
//! messages shown when a request is refused. Keys are read and bodies moved
//! by the engine.

use vstd::prelude::*;
use crate::text::{owned, str_eq};
use crate::roles::CharacterRole;
use crate::direction::EightDirection;
use crate::crew::{LabActionDemo, LabCharacter};
use crate::animation::{AnimationState, Gait, SpriteAnimation};
use crate::sheets::CharacterAnimationCatalogs;
use crate::class_profiles::{
    next_loadout_in_cycle, next_in_cycle, role_loadouts, bare_hands_loadout_for_role, role_bare_hands, gait_rules_for,
    spec_can_run, loadout_can_attack, spec_can_attack, action_demo_for_role, role_action_demo, loadout_can_locomote,
    spec_can_locomote,
};

verus! {

/// How lab input is routed.
#[derive(Clone, Copy, Debug, PartialEq, Eq, Structural)]
pub enum LabInputMode {
    FreeCam,
    Follow,
    CharacterControl,
}

/// Input routing state (the controlled entity and input clock are the
/// engine's).
#[derive(Clone, Copy, Debug, PartialEq, Eq, Structural)]
pub struct LabPlayerControlState {
    pub mode: LabInputMode,
    pub sprint_latched: bool,
}

impl Default for LabPlayerControlState {
    fn default() -> (r: Self)
        ensures
            r == (LabPlayerControlState { mode: LabInputMode::FreeCam, sprint_latched: false }),
    {
        LabPlayerControlState { mode: LabInputMode::FreeCam, sprint_latched: false }
    }
}

/// A centred HUD error message and how long it stays, in milliseconds.
#[derive(Clone, Debug)]
pub struct HudMessage {
    pub text: String,
    pub millis: u32,
}

/// Taking control of a crew member.
pub fn enter_character_control(state: &mut LabPlayerControlState)
    ensures
        *final(state) == (LabPlayerControlState { mode: LabInputMode::CharacterControl, sprint_latched: false }),
{
    state.mode = LabInputMode::CharacterControl;
    state.sprint_latched = false;
}

/// Releasing control back to the patrol AI.
pub fn release_character_control(state: &mut LabPlayerControlState)
    ensures
        *final(state) == (LabPlayerControlState { mode: LabInputMode::FreeCam, sprint_latched: false }),
{
    state.mode = LabInputMode::FreeCam;
    state.sprint_latched = false;
}

/// Outside character control, holding Space follows the crew (true means
/// the camera follows); under control nothing changes and the camera does
/// not follow.
pub fn update_lab_input_mode(state: &mut LabPlayerControlState, space_held: bool) -> (follow: bool)
    ensures
        old(state).mode == LabInputMode::CharacterControl ==> *final(state) == *old(state) && !follow,
        old(state).mode != LabInputMode::CharacterControl ==> follow == space_held
            && final(state).mode == (if space_held { LabInputMode::Follow } else { LabInputMode::FreeCam })
            && final(state).sprint_latched == old(state).sprint_latched,
{
    if state.mode == LabInputMode::CharacterControl {
        return false;
    }
    state.mode = if space_held { LabInputMode::Follow } else { LabInputMode::FreeCam };
    space_held
}

/// Sprint is latched while moving with Shift held under character control.
pub fn update_player_sprint_state(state: &mut LabPlayerControlState, moving: bool, shift_held: bool)
    ensures
        final(state).mode == old(state).mode,
        final(state).sprint_latched == (old(state).mode == LabInputMode::CharacterControl && moving && shift_held),
{
    if state.mode != LabInputMode::CharacterControl {
        state.sprint_latched = false;
        return;
    }
    state.sprint_latched = moving && shift_held;
}

/// The WASD movement vector (x east, y north), each axis in -1..=1.
pub fn movement_input(w: bool, s: bool, a: bool, d: bool) -> (r: (i32, i32))
    ensures
        r.0 == (if d { 1int } else { 0 }) - (if a { 1int } else { 0 }),
        r.1 == (if w { 1int } else { 0 }) - (if s { 1int } else { 0 }),
{
    let mut x: i32 = 0;
    let mut y: i32 = 0;
    if w { y = y + 1; }
    if s { y = y - 1; }
    if a { x = x - 1; }
    if d { x = x + 1; }
    (x, y)
}

/// Facing of a non-zero WASD vector.
pub open spec fn spec_input_facing(x: i32, y: i32) -> EightDirection {
    if x == 0 && y > 0 {
        EightDirection::North
    } else if x == 0 {
        EightDirection::South
    } else if y == 0 && x > 0 {
        EightDirection::East
    } else if y == 0 {
        EightDirection::West
    } else if x > 0 && y > 0 {
        EightDirection::NorthEast
    } else if x > 0 {
        EightDirection::SouthEast
    } else if y > 0 {
        EightDirection::NorthWest
    } else {
        EightDirection::SouthWest
    }
}

/// Facing of a non-zero WASD vector: the eight-way direction it points to.
pub fn input_facing(x: i32, y: i32) -> (r: EightDirection)
    ensures
        r == spec_input_facing(x, y),
{
    if x == 0 && y > 0 {
        EightDirection::North
    } else if x == 0 {
        EightDirection::South
    } else if y == 0 && x > 0 {
        EightDirection::East
    } else if y == 0 {
        EightDirection::West
    } else if x > 0 && y > 0 {
        EightDirection::NorthEast
    } else if x > 0 {
        EightDirection::SouthEast
    } else if y > 0 {
        EightDirection::NorthWest
    } else {
        EightDirection::SouthWest
    }
}

/// Tab: hold the next loadout of the role's cycle and queue it for the sprite.
pub fn apply_player_loadout_tab(role: CharacterRole, character: &mut LabCharacter)
    ensures
        final(character).loadout@ == next_in_cycle(role_loadouts(role), old(character).loadout@),
        final(character).pending_loadout is Some,
        final(character).pending_loadout->0@ == final(character).loadout@,
        final(character).class == old(character).class,
        final(character).action_demo == old(character).action_demo,
{
    let next = next_loadout_in_cycle(role, character.loadout.as_str());
    let pending = owned(next.as_str());
    character.loadout = next;
    character.pending_loadout = Some(pending);
}

/// Q: drop to the role's bare-hands loadout.
pub fn apply_player_bare_hands(role: CharacterRole, character: &mut LabCharacter)
    ensures
        final(character).loadout@ == role_bare_hands(role),
        final(character).pending_loadout is Some,
        final(character).pending_loadout->0@ == role_bare_hands(role),
        final(character).class == old(character).class,
        final(character).action_demo == old(character).action_demo,
{
    let bare = bare_hands_loadout_for_role(role);
    character.loadout = owned(bare);
    character.pending_loadout = Some(owned(bare));
}

/// Attacking: a slash locked until its loop ends.
pub open spec fn attacking(a: SpriteAnimation) -> bool {
    a.lock_until_cycle_end && a.state == AnimationState::Slashing
}

/// Outcome of a movement request.
#[derive(Clone, Debug)]
pub struct MoveDecision {
    pub gait: Gait,
    /// Whether the body faces and moves along the input (else it stands
    /// facing its sprite's direction).
    pub follow_input: bool,
    pub message: Option<HudMessage>,
}

/// Whether the held loadout's art can carry the request.
pub open spec fn can_move_with(catalogs: CharacterAnimationCatalogs, c: LabCharacter, run: bool) -> bool {
    match catalogs.spec_catalog(c.class@) {
        Some(cat) => match cat.spec_loadout(c.loadout@) {
            Some(set) => if run { spec_can_locomote(c.class@, c.loadout@, set, true) } else { set.walkable() },
            None => false,
        },
        None => false,
    }
}

/// Movement under player control for the WASD vector `(x, y)`: while
/// attacking, stand; without input, stand; otherwise face the input, drop
/// the sprint latch (with a message) when the loadout cannot run, and walk
/// or run when the loadout's art allows it, else stand with a message.
pub fn apply_player_movement_intent(
    state: &mut LabPlayerControlState,
    catalogs: &CharacterAnimationCatalogs,
    character: &LabCharacter,
    anim: &mut SpriteAnimation,
    x: i32,
    y: i32,
) -> (r: MoveDecision)
    ensures
        final(state).mode == old(state).mode,
        final(anim).state == old(anim).state,
        final(anim).frame_index == old(anim).frame_index,
        final(anim).lock_until_cycle_end == old(anim).lock_until_cycle_end,
        final(anim).pending_state == old(anim).pending_state,
        attacking(*old(anim)) || (x == 0 && y == 0) ==> r.gait == Gait::Idle && !r.follow_input && r.message is None
            && *final(state) == *old(state) && final(anim).direction == old(anim).direction,
        !attacking(*old(anim)) && !(x == 0 && y == 0) ==> ({
            let want_run = old(state).sprint_latched;
            let can_run = spec_can_run(character.class@, character.loadout@);
            let run_ok = want_run && can_run;
            let can_move = can_move_with(*catalogs, *character, run_ok);
            &&& final(anim).direction == spec_input_facing(x, y)
            &&& final(state).sprint_latched == (want_run && can_run)
            &&& (!can_move ==> r.gait == Gait::Idle && !r.follow_input && r.message is Some
                && r.message->0.text@ == "Cannot walk or run in this state"@ && r.message->0.millis == 2000)
            &&& (can_move ==> r.follow_input && r.gait == (if run_ok { Gait::Run } else { Gait::Walk }))
            &&& (can_move && want_run && !can_run ==> r.message is Some && r.message->0.text@ == "Cannot run in this state"@
                && r.message->0.millis == 1800)
            &&& (can_move && !(want_run && !can_run) ==> r.message is None)
        }),
{
    if anim.lock_until_cycle_end && anim.state == AnimationState::Slashing {
        return MoveDecision { gait: Gait::Idle, follow_input: false, message: None };
    }
    if x == 0 && y == 0 {
        return MoveDecision { gait: Gait::Idle, follow_input: false, message: None };
    }
    anim.direction = input_facing(x, y);
    let want_run = state.sprint_latched;
    let rules = gait_rules_for(character.class.as_str(), character.loadout.as_str());
    let mut message: Option<HudMessage> = None;
    if want_run && !rules.can_run {
        message = Some(HudMessage { text: owned("Cannot run in this state"), millis: 1800 });
        state.sprint_latched = false;
    }
    let run_ok = want_run && rules.can_run;
    let can_move = match catalogs.catalog(character.class.as_str()) {
        Some(cat) => match cat.loadout(character.loadout.as_str()) {
            Some(set) => if run_ok {
                loadout_can_locomote(character.class.as_str(), character.loadout.as_str(), set, true)
            } else {
                set.can_walk()
            },
            None => false,
        },
        None => false,
    };
    if !can_move {
        return MoveDecision {
            gait: Gait::Idle,
            follow_input: false,
            message: Some(HudMessage { text: owned("Cannot walk or run in this state"), millis: 2000 }),
        };
    }
    let gait = if state.sprint_latched && rules.can_run { Gait::Run } else { Gait::Walk };
    MoveDecision { gait, follow_input: true, message }
}

/// After the physics step: a requested walk or run that did not move the
/// body shows idle instead (not while attacking).
pub fn sync_player_locomotion_from_motion(anim: &SpriteAnimation, gait: Gait, barely_moved: bool) -> (r: Gait)
    ensures
        r == (if !attacking(*anim) && (gait == Gait::Walk || gait == Gait::Run) && barely_moved { Gait::Idle } else { gait }),
{
    if anim.lock_until_cycle_end && anim.state == AnimationState::Slashing {
        return gait;
    }
    if !gait.is_moving() {
        return gait;
    }
    if barely_moved { Gait::Idle } else { gait }
}

/// The refusal shown for an attack the role or loadout cannot make.
pub open spec fn attack_refusal() -> Seq<char> {
    "You cannot attack in this state \u{2014} switch to another one"@
}

/// An attack request (mouse button) facing `facing` when WASD is held: roles
/// without an attack demo, and loadouts without slash art, refuse with a
/// message; otherwise the character starts its demo, stops, and the sprite
/// starts a locked slash at frame 0 (its timer restarts at 80 ms).
pub fn apply_player_action_input(
    role: CharacterRole,
    catalogs: &CharacterAnimationCatalogs,
    character: &mut LabCharacter,
    anim: &mut SpriteAnimation,
    facing: Option<EightDirection>,
) -> (r: Result<Gait, HudMessage>)
    ensures
        final(anim).direction == (match facing { Some(f) => f, None => old(anim).direction }),
        final(character).class == old(character).class,
        final(character).loadout == old(character).loadout,
        final(character).pending_loadout == old(character).pending_loadout,
        (role_action_demo(role) == LabActionDemo::NoDemo || !spec_can_attack(*catalogs, old(character).class@, old(character).loadout@))
            ==> r is Err && r->Err_0.text@ == attack_refusal() && r->Err_0.millis == 2200
            && final(character).action_demo == old(character).action_demo && final(anim).state == old(anim).state
            && final(anim).frame_index == old(anim).frame_index && final(anim).lock_until_cycle_end == old(anim).lock_until_cycle_end
            && final(anim).pending_state == old(anim).pending_state,
        !(role_action_demo(role) == LabActionDemo::NoDemo || !spec_can_attack(*catalogs, old(character).class@, old(character).loadout@))
            ==> r == Ok::<Gait, HudMessage>(Gait::Idle) && final(character).action_demo == role_action_demo(role)
            && final(anim).state == AnimationState::Slashing && final(anim).pending_state == Some(AnimationState::Slashing)
            && final(anim).lock_until_cycle_end && final(anim).frame_index == 0,
        final(anim).pending_loadout == old(anim).pending_loadout,
{
    if let Some(f) = facing {
        anim.direction = f;
    }
    let demo = action_demo_for_role(role);
    if demo == LabActionDemo::NoDemo {
        return Err(HudMessage { text: owned("You cannot attack in this state \u{2014} switch to another one"), millis: 2200 });
    }
    if !loadout_can_attack(catalogs, character.class.as_str(), character.loadout.as_str()) {
        return Err(HudMessage { text: owned("You cannot attack in this state \u{2014} switch to another one"), millis: 2200 });
    }
    character.action_demo = demo;
    anim.pending_state = Some(AnimationState::Slashing);
    anim.lock_until_cycle_end = true;
    anim.state = AnimationState::Slashing;
    anim.frame_index = 0;
    Ok(Gait::Idle)
}

/// The slash timer of a started attack, in milliseconds.
pub const ATTACK_FIRST_FRAME_MS: u64 = 80;

/// Once the slash has finished, the action demo clears.
pub fn clear_player_action_on_finish(character: &mut LabCharacter, anim: &SpriteAnimation)
    ensures
        final(character).class == old(character).class,
        final(character).loadout == old(character).loadout,
        final(character).pending_loadout == old(character).pending_loadout,
        final(character).action_demo == (if old(character).action_demo != LabActionDemo::NoDemo
            && anim.state != AnimationState::Slashing && !anim.lock_until_cycle_end {
            LabActionDemo::NoDemo
        } else {
            old(character).action_demo
        }),
{
    if character.action_demo != LabActionDemo::NoDemo && anim.state != AnimationState::Slashing && !anim.lock_until_cycle_end {
        character.action_demo = LabActionDemo::NoDemo;
    }
}

/// What the control shortcut (Ctrl, or a click on the chest) does.
#[derive(Clone, Copy, Debug, PartialEq, Eq, Structural)]
pub enum ControlToggle {
    /// Take control of the followed crew member.
    Enter,
    /// Hand the controlled crew member back to its patrol.
    Release,
    /// Nothing: the free camera has no one to take.
    Ignore,
}

/// The control shortcut takes control while following, releases it while
/// playing, and does nothing in free camera.
pub fn control_toggle(mode: LabInputMode) -> (r: ControlToggle)
    ensures
        mode == LabInputMode::Follow ==> r == ControlToggle::Enter,
        mode == LabInputMode::CharacterControl ==> r == ControlToggle::Release,
        mode == LabInputMode::FreeCam ==> r == ControlToggle::Ignore,
{
    match mode {
        LabInputMode::Follow => ControlToggle::Enter,
        LabInputMode::CharacterControl => ControlToggle::Release,
        LabInputMode::FreeCam => ControlToggle::Ignore,
    }
}

/// Which parts of the control HUD show.
#[derive(Clone, Copy, Debug, PartialEq, Eq, Structural)]
pub struct HudVisibility {
    /// The control panel (chest and mode icon).
    pub panel: bool,
    /// The corner message line.
    pub corner_message: bool,
    /// The centred error message.
    pub center_message: bool,
}

/// The control panel shows while following or playing; a pending message
/// shows there too, centred or in the corner as it was raised.
pub fn hud_visibility(mode: LabInputMode, message_empty: bool, centered: bool) -> (r: HudVisibility)
    ensures
        r.panel == (mode == LabInputMode::Follow || mode == LabInputMode::CharacterControl),
        r.corner_message == (r.panel && !message_empty && !centered),
        r.center_message == (r.panel && !message_empty && centered),
{
    let panel = match mode {
        LabInputMode::Follow | LabInputMode::CharacterControl => true,
        LabInputMode::FreeCam => false,
    };
    HudVisibility {
        panel,
        corner_message: panel && !message_empty && !centered,
        center_message: panel && !message_empty && centered,
    }
}

/// Follow target after the follow-mode clicks: the left button steps back
/// and the right button forward through the `len` crew members, wrapping;
/// with no crew the index stays.
pub fn cycle_follow(index: usize, len: usize, left: bool, right: bool) -> (r: usize)
    requires
        len > 0 && left ==> index + len - 1 <= usize::MAX,
        len > 0 && right && !left ==> index + 1 <= usize::MAX,
    ensures
        len == 0 ==> r == index,
        len > 0 ==> r == ({
            let a = if left { (index + len - 1) % (len as int) } else { index as int };
            if right { (a + 1) % (len as int) } else { a }
        }),
{
    if len == 0 {
        return index;
    }
    let mut i = index;
    if left {
        i = (i + (len - 1)) % len;
    }
    if right {
        i = (i + 1) % len;
    }
    i
}

/// The crew member the control shortcut takes: the followed one, or the
/// first when the follow index is past the list; none without crew.
pub fn control_pick(len: usize, follow_index: usize) -> (r: Option<usize>)
    ensures
        follow_index < len ==> r == Some(follow_index),
        follow_index >= len && len > 0 ==> r == Some(0usize),
        len == 0 ==> r is None,
{
    if follow_index < len {
        Some(follow_index)
    } else if len > 0 {
        Some(0)
    } else {
        None
    }
}

} // verus!

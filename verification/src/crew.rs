//! Lab crew character state shared by patrol, player control and animation.

use vstd::prelude::*;
use crate::text::owned;
use crate::animation::{AnimationState, SpriteAnimation};

verus! {

/// One-shot action clip for lab patrol demos (slash, shoot, play instrument).
#[derive(Clone, Copy, Debug, PartialEq, Eq, Structural)]
pub enum LabActionDemo {
    NoDemo,
    Slash,
    Shoot,
    Play,
}

impl Default for LabActionDemo {
    fn default() -> (r: Self)
        ensures
            r == LabActionDemo::NoDemo,
    {
        LabActionDemo::NoDemo
    }
}

/// Runtime state of a lab crew character.
#[derive(Clone, Debug)]
pub struct LabCharacter {
    pub class: String,
    pub loadout: String,
    pub pending_loadout: Option<String>,
    pub action_demo: LabActionDemo,
}

impl LabCharacter {
    /// A character of `class` holding `loadout`, with nothing pending.
    pub fn new(class: &str, loadout: &str) -> (r: Self)
        ensures
            r.class@ == class@,
            r.loadout@ == loadout@,
            r.pending_loadout is None,
            r.action_demo == LabActionDemo::NoDemo,
    {
        LabCharacter {
            class: owned(class),
            loadout: owned(loadout),
            pending_loadout: None,
            action_demo: LabActionDemo::NoDemo,
        }
    }
}

/// Apply a pending loadout swap: the character takes the pending loadout and
/// its sprite restarts at frame 0, unlocked, with nothing pending. Returns the
/// restarted frame timer in milliseconds, or `None` with no swap pending
/// (nothing changes then).
pub fn apply_loadout_swap(character: &mut LabCharacter, anim: &mut SpriteAnimation) -> (timer_ms: Option<u64>)
    ensures
        match old(character).pending_loadout {
            Some(p) => {
                &&& final(character).loadout@ == p@
                &&& final(character).pending_loadout is None
                &&& final(character).class == old(character).class
                &&& final(character).action_demo == old(character).action_demo
                &&& final(anim).frame_index == 0
                &&& !final(anim).lock_until_cycle_end
                &&& final(anim).pending_state is None
                &&& final(anim).state == old(anim).state
                &&& final(anim).direction == old(anim).direction
                &&& timer_ms == Some(100u64)
            },
            None => *final(character) == *old(character) && *final(anim) == *old(anim) && timer_ms is None,
        },
{
    match character.pending_loadout.take() {
        Some(pending) => {
            character.loadout = pending;
            anim.frame_index = 0;
            anim.lock_until_cycle_end = false;
            anim.pending_state = None;
            Some(100)
        },
        None => None,
    }
}

/// Start the character's demo action: a character with a demo whose sprite
/// is not already slashing switches to the slash clip at frame 0, locked to
/// finish its loop. Returns the restarted frame timer in milliseconds, or
/// `None` when nothing changes.
pub fn start_action_demo(character: &LabCharacter, anim: &mut SpriteAnimation) -> (timer_ms: Option<u64>)
    ensures
        (character.action_demo != LabActionDemo::NoDemo && old(anim).state != AnimationState::Slashing) ==> {
            &&& final(anim).state == AnimationState::Slashing
            &&& final(anim).pending_state == Some(AnimationState::Slashing)
            &&& final(anim).lock_until_cycle_end
            &&& final(anim).frame_index == 0
            &&& final(anim).direction == old(anim).direction
            &&& final(anim).pending_loadout == old(anim).pending_loadout
            &&& timer_ms == Some(80u64)
        },
        !(character.action_demo != LabActionDemo::NoDemo && old(anim).state != AnimationState::Slashing) ==> *final(anim) == *old(anim)
            && timer_ms is None,
{
    if character.action_demo == LabActionDemo::NoDemo || anim.state == AnimationState::Slashing {
        return None;
    }
    anim.pending_state = Some(AnimationState::Slashing);
    anim.lock_until_cycle_end = true;
    anim.state = AnimationState::Slashing;
    anim.frame_index = 0;
    Some(80)
}

} // verus!

//! Lab patrol AI for the starter island crew: the phase machine (idle, walk,
//! optional run, decelerate, action demo, weapon swap, turn), loadout swaps
//! and turns. The engine ticks the phase timer, measures movement and scores
//! clear headings; each frame it hands those results to these rules and
//! performs the returned gait and timer request.

use vstd::prelude::*;
use crate::text::{owned, str_eq};
use crate::direction::{EightDirection, all_directions, direction_ordinal};
use crate::crew::{LabActionDemo, LabCharacter};
use crate::animation::{AnimationState, Gait, SpriteAnimation};
use crate::sheets::CharacterAnimationCatalog;
use crate::class_profiles::{pick_loadout_for_locomotion, string_views, first_supported, loadout_supports, lemma_first_supported};

verus! {

/// Phase of the patrol cycle.
#[derive(Clone, Copy, Debug, PartialEq, Eq, Structural)]
pub enum PatrolPhase {
    TurnPause,
    PreMoveIdle,
    Walk,
    Run,
    DecelWalk,
    DecelIdle,
    WeaponSwap,
    SlashDemo,
    ShootDemo,
    PlayDemo,
}

/// Length of the next phase, as the engine should start its timer.
#[derive(Clone, Copy, Debug, PartialEq, Eq, Structural)]
pub enum PhaseTimer {
    /// A fixed length in milliseconds.
    Millis(u32),
    /// A random walk leg of 3.5 to 6 seconds.
    RandomWalk,
    /// A random run leg of 2.5 to 4.5 seconds.
    RandomRun,
}

/// Patrol state of one crew member (the phase timer lives in the engine).
#[derive(Clone, Debug)]
pub struct LabPatrolAi {
    pub phase: PatrolPhase,
    pub facing: EightDirection,
    pub direction_order: Vec<EightDirection>,
    pub direction_index: usize,
    pub loadout_cycle: Vec<String>,
    pub loadout_index: usize,
    pub action_demo: LabActionDemo,
}

/// First index of `x` in `s`, or `d` when absent.
pub open spec fn position_or<T>(s: Seq<T>, x: T, d: int) -> int
    decreases s.len(),
{
    if s.len() == 0 {
        d
    } else if s.last() == x && position_or(s.drop_last(), x, -1) == -1 {
        s.len() - 1
    } else if position_or(s.drop_last(), x, -1) == -1 {
        d
    } else {
        position_or(s.drop_last(), x, -1)
    }
}

impl LabPatrolAi {
    /// Facing and cursor agree, the order is the canonical eight facings and
    /// the loadout cursor is on the cycle.
    pub open spec fn wf(&self) -> bool {
        &&& self.direction_order@ == all_directions()
        &&& self.direction_index < 8
        &&& self.facing == self.direction_order@[self.direction_index as int]
        &&& self.loadout_cycle@.len() > 0 ==> self.loadout_index < self.loadout_cycle@.len()
    }

    /// A patrol cycling `loadouts`, starting idle before its first walk and
    /// facing `start_facing`; the first phase lasts 600 ms.
    pub fn new(loadouts: &Vec<&str>, start_facing: EightDirection, action_demo: LabActionDemo) -> (r: (Self, u32))
        ensures
            r.0.wf(),
            r.0.phase == PatrolPhase::PreMoveIdle,
            r.0.facing == start_facing,
            r.0.direction_index == direction_ordinal(start_facing),
            string_views(r.0.loadout_cycle@) == crate::class_profiles::str_views(loadouts@),
            r.0.loadout_index == 0,
            r.0.action_demo == action_demo,
            r.1 == 600,
    {
        let direction_order = EightDirection::all();
        let direction_index = start_facing.index();
        let mut cycle: Vec<String> = Vec::new();
        let mut i: usize = 0;
        while i < loadouts.len()
            invariant
                i <= loadouts.len(),
                cycle@.len() == i,
                forall|k: int| 0 <= k < i ==> (#[trigger] cycle@[k])@ == loadouts@[k]@,
            decreases loadouts.len() - i,
        {
            cycle.push(owned(loadouts[i]));
            i = i + 1;
        }
        assert(string_views(cycle@) =~= crate::class_profiles::str_views(loadouts@));
        let p = LabPatrolAi {
            phase: PatrolPhase::PreMoveIdle,
            facing: start_facing,
            direction_order,
            direction_index,
            loadout_cycle: cycle,
            loadout_index: 0,
            action_demo,
        };
        (p, 600)
    }

    /// Face `facing`, moving the heading cursor onto it.
    pub fn face_toward(&mut self, facing: EightDirection)
        requires
            old(self).wf(),
        ensures
            final(self).wf(),
            final(self).facing == facing,
            final(self).direction_index == direction_ordinal(facing),
            final(self).phase == old(self).phase,
            final(self).loadout_cycle == old(self).loadout_cycle,
            final(self).loadout_index == old(self).loadout_index,
            final(self).action_demo == old(self).action_demo,
    {
        self.facing = facing;
        self.direction_index = facing.index();
    }

    /// Turn to the next heading of the canonical order.
    pub fn advance_direction(&mut self)
        requires
            old(self).wf(),
        ensures
            final(self).wf(),
            final(self).direction_index == (old(self).direction_index + 1) % 8,
            final(self).facing == all_directions()[(old(self).direction_index + 1) % 8],
            final(self).phase == old(self).phase,
            final(self).loadout_cycle == old(self).loadout_cycle,
            final(self).loadout_index == old(self).loadout_index,
            final(self).action_demo == old(self).action_demo,
    {
        self.direction_index = (self.direction_index + 1) % self.direction_order.len();
        self.facing = self.direction_order[self.direction_index];
    }
}

/// Walking, running or decelerating with a moving gait.
pub fn locomoting(phase: PatrolPhase, gait: Gait) -> (r: bool)
    ensures
        r == ((gait == Gait::Walk || gait == Gait::Run) && (phase == PatrolPhase::Walk || phase == PatrolPhase::Run
            || phase == PatrolPhase::DecelWalk)),
{
    gait.is_moving() && (phase == PatrolPhase::Walk || phase == PatrolPhase::Run || phase == PatrolPhase::DecelWalk)
}

/// Force a turn to `facing` (chosen by the caller: an override, or the
/// clearest heading): pause before moving on, stop, and snap the sprite to
/// idle facing the new way. Returns the pause length in milliseconds; the
/// stuck and backwards timers restart.
pub fn force_patrol_turn(patrol: &mut LabPatrolAi, anim: &mut SpriteAnimation, facing: EightDirection) -> (r: (Gait, u32))
    requires
        old(patrol).wf(),
    ensures
        final(patrol).wf(),
        final(patrol).phase == PatrolPhase::TurnPause,
        final(patrol).facing == facing,
        final(patrol).direction_index == direction_ordinal(facing),
        final(patrol).loadout_cycle == old(patrol).loadout_cycle,
        final(patrol).loadout_index == old(patrol).loadout_index,
        final(patrol).action_demo == old(patrol).action_demo,
        final(anim).state == AnimationState::Idle,
        final(anim).direction == facing,
        final(anim).frame_index == 0,
        !final(anim).lock_until_cycle_end,
        final(anim).pending_state is None,
        final(anim).pending_loadout == old(anim).pending_loadout,
        r == (Gait::Idle, 350u32),
{
    patrol.face_toward(facing);
    patrol.phase = PatrolPhase::TurnPause;
    anim.lock_until_cycle_end = false;
    anim.pending_state = None;
    anim.state = AnimationState::Idle;
    anim.direction = facing;
    anim.frame_index = 0;
    (Gait::Idle, 350)
}

/// After a social pause, depart toward `facing` (chosen by the caller away
/// from the crew member just met): idle briefly, then walk. Returns the
/// gait and the pause length in milliseconds.
pub fn resume_patrol_after_social(patrol: &mut LabPatrolAi, facing: EightDirection) -> (r: (Gait, u32))
    requires
        old(patrol).wf(),
    ensures
        final(patrol).wf(),
        final(patrol).phase == PatrolPhase::PreMoveIdle,
        final(patrol).facing == facing,
        final(patrol).loadout_cycle == old(patrol).loadout_cycle,
        final(patrol).loadout_index == old(patrol).loadout_index,
        final(patrol).action_demo == old(patrol).action_demo,
        r == (Gait::Idle, 400u32),
{
    patrol.face_toward(facing);
    patrol.phase = PatrolPhase::PreMoveIdle;
    (Gait::Idle, 400)
}

/// Whether this frame's phase step turns the patrol toward a new heading,
/// which the caller must then choose: at the end of the decelerating idle
/// with no demo and a single loadout, or at the end of a weapon swap.
pub fn patrol_turn_due(patrol: &LabPatrolAi, timer_finished: bool) -> (r: bool)
    ensures
        r == (timer_finished && ((patrol.phase == PatrolPhase::DecelIdle && patrol.action_demo == LabActionDemo::NoDemo
            && patrol.loadout_cycle@.len() <= 1) || patrol.phase == PatrolPhase::WeaponSwap)),
{
    timer_finished && ((patrol.phase == PatrolPhase::DecelIdle && patrol.action_demo == LabActionDemo::NoDemo
        && patrol.loadout_cycle.len() <= 1) || patrol.phase == PatrolPhase::WeaponSwap)
}

/// The phase a patrol moves to, with its gait and timer, when nothing turns
/// it: idle pauses lead to a walk, a walk to a run (or a slowdown for
/// classes that cannot run), a run to a slowdown, the slowdown to an idle,
/// the idle to the class's action demo (or a weapon swap, or a turn), a demo
/// to a weapon swap, and a swap to a turn.
pub open spec fn next_phase(p: LabPatrolAi, finished: bool, can_run: bool) -> (PatrolPhase, Gait, Option<PhaseTimer>) {
    match p.phase {
        PatrolPhase::TurnPause => if finished {
            (PatrolPhase::PreMoveIdle, Gait::Idle, Some(PhaseTimer::Millis(450)))
        } else {
            (p.phase, Gait::Idle, None)
        },
        PatrolPhase::PreMoveIdle => if finished {
            (PatrolPhase::Walk, Gait::Walk, Some(PhaseTimer::RandomWalk))
        } else {
            (p.phase, Gait::Idle, None)
        },
        PatrolPhase::Walk => if finished {
            if can_run {
                (PatrolPhase::Run, Gait::Run, Some(PhaseTimer::RandomRun))
            } else {
                (PatrolPhase::DecelWalk, Gait::Walk, Some(PhaseTimer::Millis(800)))
            }
        } else {
            (p.phase, Gait::Walk, None)
        },
        PatrolPhase::Run => if finished {
            (PatrolPhase::DecelWalk, Gait::Walk, Some(PhaseTimer::Millis(900)))
        } else {
            (p.phase, Gait::Run, None)
        },
        PatrolPhase::DecelWalk => if finished {
            (PatrolPhase::DecelIdle, Gait::Idle, Some(PhaseTimer::Millis(550)))
        } else {
            (p.phase, Gait::Walk, None)
        },
        PatrolPhase::DecelIdle => if finished {
            match p.action_demo {
                LabActionDemo::Slash => (PatrolPhase::SlashDemo, Gait::Idle, Some(PhaseTimer::Millis(1500))),
                LabActionDemo::Shoot => (PatrolPhase::ShootDemo, Gait::Idle, Some(PhaseTimer::Millis(1800))),
                LabActionDemo::Play => (PatrolPhase::PlayDemo, Gait::Idle, Some(PhaseTimer::Millis(2200))),
                LabActionDemo::NoDemo => if p.loadout_cycle@.len() > 1 {
                    (PatrolPhase::WeaponSwap, Gait::Idle, Some(PhaseTimer::Millis(1000)))
                } else {
                    (PatrolPhase::TurnPause, Gait::Idle, Some(PhaseTimer::Millis(350)))
                },
            }
        } else {
            (p.phase, Gait::Idle, None)
        },
        PatrolPhase::WeaponSwap => if finished {
            (PatrolPhase::TurnPause, Gait::Idle, Some(PhaseTimer::Millis(350)))
        } else {
            (p.phase, Gait::Idle, None)
        },
        _ => if finished {
            (PatrolPhase::WeaponSwap, Gait::Idle, Some(PhaseTimer::Millis(700)))
        } else {
            (p.phase, Gait::Idle, None)
        },
    }
}

/// The demo clip a demo phase plays.
pub open spec fn phase_demo(phase: PatrolPhase) -> LabActionDemo {
    match phase {
        PatrolPhase::SlashDemo => LabActionDemo::Slash,
        PatrolPhase::ShootDemo => LabActionDemo::Shoot,
        PatrolPhase::PlayDemo => LabActionDemo::Play,
        _ => LabActionDemo::NoDemo,
    }
}

/// The character's demo action after a phase-machine step that is not a
/// stall turn: a demo phase plays its demo until its timer ends; entering a
/// demo phase keeps the demo already set; any other phase clears it.
pub open spec fn stepped_demo(p: LabPatrolAi, timer_finished: bool, can_run: bool, demo: LabActionDemo) -> LabActionDemo {
    let phase = next_phase(p, timer_finished, can_run).0;
    if phase_demo(p.phase) != LabActionDemo::NoDemo {
        if timer_finished { LabActionDemo::NoDemo } else { phase_demo(p.phase) }
    } else if phase_demo(phase) != LabActionDemo::NoDemo {
        demo
    } else {
        LabActionDemo::NoDemo
    }
}

/// A patrol only ever plays its own demo: when the phase's demo and the
/// character's demo are each none or the patrol's demo, they stay so after a
/// step (a stall turn clears the character's demo outright).
pub proof fn law_demo_follows_patrol(p: LabPatrolAi, timer_finished: bool, can_run: bool, demo: LabActionDemo)
    requires
        phase_demo(p.phase) == LabActionDemo::NoDemo || phase_demo(p.phase) == p.action_demo,
        demo == LabActionDemo::NoDemo || demo == p.action_demo,
    ensures
        phase_demo(next_phase(p, timer_finished, can_run).0) == LabActionDemo::NoDemo
            || phase_demo(next_phase(p, timer_finished, can_run).0) == p.action_demo,
        stepped_demo(p, timer_finished, can_run, demo) == LabActionDemo::NoDemo
            || stepped_demo(p, timer_finished, can_run, demo) == p.action_demo,
{
}

/// A finished demo always hands over to a weapon swap: when a slash, shoot
/// or play demo's timer ends, the next phase is the weapon swap, idle, on a
/// 700 ms timer, and the character's demo clip stops; until then the demo
/// phase holds, idle, with no new timer. A finished swap then turns, idle,
/// on a 350 ms timer.
pub proof fn law_demo_ends_in_weapon_swap(p: LabPatrolAi, can_run: bool, demo: LabActionDemo)
    ensures
        (p.phase == PatrolPhase::SlashDemo || p.phase == PatrolPhase::ShootDemo || p.phase == PatrolPhase::PlayDemo) ==> {
            &&& next_phase(p, true, can_run) == (PatrolPhase::WeaponSwap, Gait::Idle, Some(PhaseTimer::Millis(700)))
            &&& stepped_demo(p, true, can_run, demo) == LabActionDemo::NoDemo
            &&& next_phase(p, false, can_run) == (p.phase, Gait::Idle, None::<PhaseTimer>)
        },
        p.phase == PatrolPhase::WeaponSwap ==> next_phase(p, true, can_run) == (PatrolPhase::TurnPause, Gait::Idle, Some(PhaseTimer::Millis(350))),
{
}

/// A loadout that cannot run never starts a run leg: outside a run, the next
/// phase is not a run and its gait is not running.
pub proof fn law_no_run_without_running_art(p: LabPatrolAi, timer_finished: bool)
    requires
        p.phase != PatrolPhase::Run,
    ensures
        next_phase(p, timer_finished, false).0 != PatrolPhase::Run,
        next_phase(p, timer_finished, false).1 != Gait::Run,
{
}

/// One frame of the phase machine. `timer_finished` reports the phase
/// timer; `can_run` the gait rules of the held loadout; `stall_turn` is the
/// heading to turn to when the patrol is decelerating but barely moved this
/// frame (the turn then replaces the step); `turn_facing` is the heading the
/// caller chose when `patrol_turn_due` held. Returns the gait to request and
/// the timer to start, if any.
pub fn patrol_phase_step(
    patrol: &mut LabPatrolAi,
    character: &mut LabCharacter,
    anim: &mut SpriteAnimation,
    timer_finished: bool,
    can_run: bool,
    stall_turn: Option<EightDirection>,
    turn_facing: EightDirection,
) -> (r: (Gait, Option<PhaseTimer>))
    requires
        old(patrol).wf(),
        old(patrol).phase == PatrolPhase::WeaponSwap && timer_finished ==> old(patrol).loadout_cycle@.len() > 0,
    ensures
        final(patrol).wf(),
        final(patrol).loadout_cycle == old(patrol).loadout_cycle,
        final(patrol).action_demo == old(patrol).action_demo,
        final(character).class == old(character).class,
        !can_run && old(patrol).phase != PatrolPhase::Run ==> r.0 != Gait::Run && final(patrol).phase != PatrolPhase::Run,
        (phase_demo(old(patrol).phase) == LabActionDemo::NoDemo || phase_demo(old(patrol).phase) == old(patrol).action_demo)
            && (old(character).action_demo == LabActionDemo::NoDemo || old(character).action_demo == old(patrol).action_demo)
            ==> (phase_demo(final(patrol).phase) == LabActionDemo::NoDemo || phase_demo(final(patrol).phase) == final(patrol).action_demo)
            && (final(character).action_demo == LabActionDemo::NoDemo || final(character).action_demo == final(patrol).action_demo),
        ({
            let p = *old(patrol);
            if p.phase == PatrolPhase::DecelWalk && stall_turn is Some {
                &&& final(patrol).phase == PatrolPhase::TurnPause
                &&& final(patrol).facing == stall_turn->0
                &&& final(anim).state == AnimationState::Idle
                &&& final(anim).direction == stall_turn->0
                &&& final(anim).frame_index == 0
                &&& r == (Gait::Walk, Some(PhaseTimer::Millis(350)))
                &&& final(character).loadout == old(character).loadout
                &&& final(character).pending_loadout == old(character).pending_loadout
                &&& final(character).action_demo == LabActionDemo::NoDemo
                &&& final(patrol).loadout_index == p.loadout_index
            } else {
                let (phase, gait, timer) = next_phase(p, timer_finished, can_run);
                let turned = timer_finished && (p.phase == PatrolPhase::WeaponSwap || (p.phase == PatrolPhase::DecelIdle
                    && p.action_demo == LabActionDemo::NoDemo && p.loadout_cycle@.len() <= 1));
                let swapped = timer_finished && p.phase == PatrolPhase::WeaponSwap;
                let next_index = (p.loadout_index + 1) % (p.loadout_cycle@.len() as int);
                &&& final(patrol).phase == phase
                &&& r == (gait, timer)
                &&& final(patrol).facing == (if turned { turn_facing } else { p.facing })
                &&& *final(anim) == *old(anim)
                &&& final(patrol).loadout_index == (if swapped { next_index } else { p.loadout_index as int })
                &&& (swapped ==> final(character).loadout@ == p.loadout_cycle@[next_index]@
                    && final(character).pending_loadout is Some
                    && final(character).pending_loadout->0@ == p.loadout_cycle@[next_index]@)
                &&& (!swapped ==> final(character).loadout == old(character).loadout
                    && final(character).pending_loadout == old(character).pending_loadout)
                &&& final(character).action_demo == stepped_demo(p, timer_finished, can_run, old(character).action_demo)
            }
        }),
{
    proof {
        let p = *old(patrol);
        let demo = old(character).action_demo;
        if (phase_demo(p.phase) == LabActionDemo::NoDemo || phase_demo(p.phase) == p.action_demo)
            && (demo == LabActionDemo::NoDemo || demo == p.action_demo) {
            law_demo_follows_patrol(p, timer_finished, can_run, demo);
        }
        if !can_run && old(patrol).phase != PatrolPhase::Run {
            law_no_run_without_running_art(*old(patrol), timer_finished);
        }
    }
    if patrol.phase == PatrolPhase::DecelWalk {
        if let Some(facing) = stall_turn {
            let _ = force_patrol_turn(patrol, anim, facing);
            character.action_demo = LabActionDemo::NoDemo;
            return (Gait::Walk, Some(PhaseTimer::Millis(350)));
        }
    }
    let r = match patrol.phase {
        PatrolPhase::TurnPause => {
            if timer_finished {
                patrol.phase = PatrolPhase::PreMoveIdle;
                (Gait::Idle, Some(PhaseTimer::Millis(450)))
            } else {
                (Gait::Idle, None)
            }
        },
        PatrolPhase::PreMoveIdle => {
            if timer_finished {
                patrol.phase = PatrolPhase::Walk;
                (Gait::Walk, Some(PhaseTimer::RandomWalk))
            } else {
                (Gait::Idle, None)
            }
        },
        PatrolPhase::Walk => {
            if timer_finished {
                if can_run {
                    patrol.phase = PatrolPhase::Run;
                    (Gait::Run, Some(PhaseTimer::RandomRun))
                } else {
                    patrol.phase = PatrolPhase::DecelWalk;
                    (Gait::Walk, Some(PhaseTimer::Millis(800)))
                }
            } else {
                (Gait::Walk, None)
            }
        },
        PatrolPhase::Run => {
            if timer_finished {
                patrol.phase = PatrolPhase::DecelWalk;
                (Gait::Walk, Some(PhaseTimer::Millis(900)))
            } else {
                (Gait::Run, None)
            }
        },
        PatrolPhase::DecelWalk => {
            if timer_finished {
                patrol.phase = PatrolPhase::DecelIdle;
                (Gait::Idle, Some(PhaseTimer::Millis(550)))
            } else {
                (Gait::Walk, None)
            }
        },
        PatrolPhase::DecelIdle => {
            if timer_finished {
                match patrol.action_demo {
                    LabActionDemo::Slash => {
                        patrol.phase = PatrolPhase::SlashDemo;
                        (Gait::Idle, Some(PhaseTimer::Millis(1500)))
                    },
                    LabActionDemo::Shoot => {
                        patrol.phase = PatrolPhase::ShootDemo;
                        (Gait::Idle, Some(PhaseTimer::Millis(1800)))
                    },
                    LabActionDemo::Play => {
                        patrol.phase = PatrolPhase::PlayDemo;
                        (Gait::Idle, Some(PhaseTimer::Millis(2200)))
                    },
                    LabActionDemo::NoDemo => {
                        if patrol.loadout_cycle.len() > 1 {
                            patrol.phase = PatrolPhase::WeaponSwap;
                            (Gait::Idle, Some(PhaseTimer::Millis(1000)))
                        } else {
                            patrol.face_toward(turn_facing);
                            patrol.phase = PatrolPhase::TurnPause;
                            (Gait::Idle, Some(PhaseTimer::Millis(350)))
                        }
                    },
                }
            } else {
                (Gait::Idle, None)
            }
        },
        PatrolPhase::WeaponSwap => {
            if timer_finished {
                let n = patrol.loadout_cycle.len();
                patrol.loadout_index = (patrol.loadout_index + 1) % n;
                let held = owned(patrol.loadout_cycle[patrol.loadout_index].as_str());
                let pending = owned(held.as_str());
                character.loadout = held;
                character.pending_loadout = Some(pending);
                patrol.face_toward(turn_facing);
                patrol.phase = PatrolPhase::TurnPause;
                (Gait::Idle, Some(PhaseTimer::Millis(350)))
            } else {
                (Gait::Idle, None)
            }
        },
        PatrolPhase::SlashDemo | PatrolPhase::ShootDemo | PatrolPhase::PlayDemo => {
            let demo = match patrol.phase {
                PatrolPhase::SlashDemo => LabActionDemo::Slash,
                PatrolPhase::ShootDemo => LabActionDemo::Shoot,
                _ => LabActionDemo::Play,
            };
            character.action_demo = demo;
            if timer_finished {
                character.action_demo = LabActionDemo::NoDemo;
                patrol.phase = PatrolPhase::WeaponSwap;
                (Gait::Idle, Some(PhaseTimer::Millis(700)))
            } else {
                (Gait::Idle, None)
            }
        },
    };
    if !(patrol.phase == PatrolPhase::SlashDemo || patrol.phase == PatrolPhase::ShootDemo
        || patrol.phase == PatrolPhase::PlayDemo) {
        character.action_demo = LabActionDemo::NoDemo;
    }
    r
}

/// First index of a loadout named `s` in the cycle.
fn loadout_position(cycle: &Vec<String>, s: &str) -> (r: Option<usize>)
    ensures
        r matches Some(i) ==> i < cycle@.len() && cycle@[i as int]@ == s@ && forall|k: int| 0 <= k < i ==> (#[trigger] cycle@[k])@ != s@,
        r is None ==> forall|k: int| 0 <= k < cycle@.len() ==> (#[trigger] cycle@[k])@ != s@,
{
    let mut i: usize = 0;
    while i < cycle.len()
        invariant
            i <= cycle.len(),
            forall|k: int| 0 <= k < i ==> (#[trigger] cycle@[k])@ != s@,
        decreases cycle.len() - i,
    {
        if str_eq(cycle[i].as_str(), s) {
            return Some(i);
        }
        i = i + 1;
    }
    None
}

/// While walking or running, switch to a loadout of the cycle whose art
/// supports the gait (see `pick_loadout_for_locomotion`), queue it for the
/// sprite, and move the loadout cursor onto it.
pub fn sync_locomotion_loadout(patrol: &mut LabPatrolAi, character: &mut LabCharacter, catalog: &CharacterAnimationCatalog)
    requires
        old(patrol).wf(),
    ensures
        final(patrol).wf(),
        final(patrol).phase == old(patrol).phase,
        final(patrol).facing == old(patrol).facing,
        final(patrol).loadout_cycle == old(patrol).loadout_cycle,
        final(patrol).action_demo == old(patrol).action_demo,
        final(character).class == old(character).class,
        final(character).action_demo == old(character).action_demo,
        ({
            let moving = old(patrol).phase == PatrolPhase::Walk || old(patrol).phase == PatrolPhase::Run;
            let want_run = old(patrol).phase == PatrolPhase::Run;
            let views = string_views(old(patrol).loadout_cycle@);
            let i = first_supported(old(character).class@, views, *catalog, want_run);
            if moving && !loadout_supports(old(character).class@, *catalog, old(character).loadout@, want_run) && i >= 0 {
                &&& final(character).loadout@ == views[i]
                &&& final(character).pending_loadout is Some
                &&& final(character).pending_loadout->0@ == views[i]
                &&& final(patrol).loadout_index < views.len()
                &&& views[final(patrol).loadout_index as int] == views[i]
            } else {
                &&& final(character).loadout == old(character).loadout
                &&& final(character).pending_loadout == old(character).pending_loadout
                &&& final(patrol).loadout_index == old(patrol).loadout_index
            }
        }),
{
    if patrol.phase == PatrolPhase::Walk || patrol.phase == PatrolPhase::Run {
        let want_run = patrol.phase == PatrolPhase::Run;
        let next = pick_loadout_for_locomotion(character.class.as_str(), &patrol.loadout_cycle, catalog, want_run, character.loadout.as_str());
        if let Some(next) = next {
            let pending = owned(next.as_str());
            match loadout_position(&patrol.loadout_cycle, next.as_str()) {
                Some(i) => { patrol.loadout_index = i; },
                None => {
                    proof {
                        let views = string_views(old(patrol).loadout_cycle@);
                        lemma_first_supported(old(character).class@, views, *catalog, want_run);
                        let k = first_supported(old(character).class@, views, *catalog, want_run);
                        assert(views[k] == patrol.loadout_cycle@[k]@);
                    }
                },
            }
            character.loadout = next;
            character.pending_loadout = Some(pending);
        }
    }
}

} // verus!

//! Sprite animation rules: which clip plays for a state, how long each frame
//! lasts, how a movement intent changes the clip (finishing walk and run
//! loops before switching), and how frames advance. The frame timer itself
//! runs in the engine, which hands each finished tick to these rules.

use vstd::prelude::*;
use crate::direction::{EightDirection, direction_ordinal};
use crate::sheets::{DirectionSheetSet, LoadoutAnimationSet};

verus! {

/// High-level animation clip for character sprites.
#[derive(Clone, Copy, Debug, PartialEq, Eq, Structural)]
pub enum AnimationState {
    Idle,
    Walking,
    Running,
    Slashing,
}

impl Default for AnimationState {
    fn default() -> (r: Self)
        ensures
            r == AnimationState::Idle,
    {
        AnimationState::Idle
    }
}

/// Locomotion gait requested by AI or player input.
#[derive(Clone, Copy, Debug, PartialEq, Eq, Structural)]
pub enum Gait {
    Idle,
    Walk,
    Run,
}

impl Default for Gait {
    fn default() -> (r: Self)
        ensures
            r == Gait::Idle,
    {
        Gait::Idle
    }
}

/// The clip a gait plays.
pub open spec fn gait_state(g: Gait) -> AnimationState {
    match g {
        Gait::Idle => AnimationState::Idle,
        Gait::Walk => AnimationState::Walking,
        Gait::Run => AnimationState::Running,
    }
}

impl Gait {
    /// Walking or running.
    pub fn is_moving(self) -> (r: bool)
        ensures
            r == (self == Gait::Walk || self == Gait::Run),
    {
        match self {
            Gait::Walk | Gait::Run => true,
            Gait::Idle => false,
        }
    }

    /// The clip this gait plays.
    pub fn animation_state(self) -> (r: AnimationState)
        ensures
            r == gait_state(self),
    {
        match self {
            Gait::Idle => AnimationState::Idle,
            Gait::Walk => AnimationState::Walking,
            Gait::Run => AnimationState::Running,
        }
    }
}

/// Visual animation state of a sprite; the frame timer is kept beside it by
/// the engine.
#[derive(Clone, Debug)]
pub struct SpriteAnimation {
    pub state: AnimationState,
    pub direction: EightDirection,
    pub frame_index: usize,
    /// When set, the clip must finish its loop before switching to `pending_state`.
    pub lock_until_cycle_end: bool,
    pub pending_state: Option<AnimationState>,
    pub pending_loadout: Option<String>,
}

impl Default for SpriteAnimation {
    fn default() -> (r: Self)
        ensures
            r.state == AnimationState::Idle,
            r.direction == EightDirection::South,
            r.frame_index == 0,
            !r.lock_until_cycle_end,
            r.pending_state is None,
            r.pending_loadout is None,
    {
        SpriteAnimation {
            state: AnimationState::Idle,
            direction: EightDirection::South,
            frame_index: 0,
            lock_until_cycle_end: false,
            pending_state: None,
            pending_loadout: None,
        }
    }
}

/// Duration of the first frame of a fresh sprite timer, in milliseconds.
pub const DEFAULT_FRAME_MS: u64 = 100;

/// The clip that plays for `state`, falling back to whatever art is loaded.
pub open spec fn spec_sheet_for_state(set: LoadoutAnimationSet, state: AnimationState) -> DirectionSheetSet {
    match state {
        AnimationState::Idle => if set.idle.ready() {
            set.idle
        } else if set.running.ready() {
            set.running
        } else if set.walking.ready() {
            set.walking
        } else {
            set.idle
        },
        AnimationState::Walking => if set.walking.ready() {
            set.walking
        } else if set.walk_uses_run_anim || set.running.ready() {
            set.running
        } else {
            set.idle
        },
        AnimationState::Running => if set.running.ready() {
            set.running
        } else if set.walking.ready() {
            set.walking
        } else {
            set.idle
        },
        AnimationState::Slashing => if set.slashing.ready() {
            set.slashing
        } else {
            set.idle
        },
    }
}

/// The clip that plays for `state`.
pub fn sheet_for_state(set: &LoadoutAnimationSet, state: AnimationState) -> (r: &DirectionSheetSet)
    ensures
        *r == spec_sheet_for_state(*set, state),
{
    match state {
        AnimationState::Idle => {
            if set.idle.is_ready() {
                &set.idle
            } else if set.running.is_ready() {
                &set.running
            } else if set.walking.is_ready() {
                &set.walking
            } else {
                &set.idle
            }
        },
        AnimationState::Walking => {
            if set.walking.is_ready() {
                &set.walking
            } else if set.walk_uses_run_anim || set.running.is_ready() {
                &set.running
            } else {
                &set.idle
            }
        },
        AnimationState::Running => {
            if set.running.is_ready() {
                &set.running
            } else if set.walking.is_ready() {
                &set.walking
            } else {
                &set.idle
            }
        },
        AnimationState::Slashing => {
            if set.slashing.is_ready() {
                &set.slashing
            } else {
                &set.idle
            }
        },
    }
}

/// Duration of the current frame: the clip's duration for the facing at the
/// frame index (clamped to the last frame), or 100 ms without durations.
pub open spec fn spec_frame_duration_ms(set: LoadoutAnimationSet, state: AnimationState, dir: EightDirection, frame: int) -> u64 {
    let d = spec_sheet_for_state(set, state).durations_ms@[direction_ordinal(dir)]@;
    if d.len() == 0 {
        100
    } else if frame < d.len() {
        d[frame] as u64
    } else {
        d[d.len() - 1] as u64
    }
}

/// Duration of the current frame of `anim`.
pub fn frame_duration_ms(set: &LoadoutAnimationSet, anim: &SpriteAnimation) -> (r: u64)
    ensures
        r == spec_frame_duration_ms(*set, anim.state, anim.direction, anim.frame_index as int),
{
    let sheet = sheet_for_state(set, anim.state);
    let idx = anim.direction.index();
    let durations = &sheet.durations_ms[idx];
    if durations.len() == 0 {
        return 100;
    }
    let frame = if anim.frame_index < durations.len() - 1 { anim.frame_index } else { durations.len() - 1 };
    durations[frame] as u64
}

/// Number of frames of the current clip for the current facing.
pub open spec fn spec_frame_count(set: LoadoutAnimationSet, state: AnimationState, dir: EightDirection) -> usize {
    spec_sheet_for_state(set, state).frame_counts@[direction_ordinal(dir)]
}

/// Number of frames of the current clip for the current facing; the frame
/// timer does not run while it is 0.
pub fn current_frame_count(set: &LoadoutAnimationSet, anim: &SpriteAnimation) -> (r: usize)
    ensures
        r == spec_frame_count(*set, anim.state, anim.direction),
{
    let sheet = sheet_for_state(set, anim.state);
    sheet.frame_counts[anim.direction.index()]
}

/// The animation after a movement intent asking for `desired` while facing
/// `new_dir`, and whether the frame timer restarts (with the new frame's
/// duration). While a loop is locked, the request is only remembered; a
/// walk or run ending in idle, or a run slowing to a walk, first finishes
/// its loop; any other state change restarts at frame 0; a turn alone
/// restarts at frame 0.
pub open spec fn intent_result(a: SpriteAnimation, desired: AnimationState, new_dir: EightDirection) -> (SpriteAnimation, bool) {
    if a.lock_until_cycle_end {
        if a.pending_state == Some(desired) && a.direction == new_dir {
            (a, false)
        } else {
            (SpriteAnimation { pending_state: Some(desired), direction: new_dir, ..a }, false)
        }
    } else if a.state != desired {
        if ((a.state == AnimationState::Running || a.state == AnimationState::Walking) && desired == AnimationState::Idle)
            || (a.state == AnimationState::Running && desired == AnimationState::Walking) {
            (SpriteAnimation { lock_until_cycle_end: true, pending_state: Some(desired), direction: new_dir, ..a }, false)
        } else {
            (SpriteAnimation { state: desired, frame_index: 0, direction: new_dir, ..a }, true)
        }
    } else if a.direction != new_dir {
        (SpriteAnimation { direction: new_dir, frame_index: 0, ..a }, true)
    } else {
        (a, false)
    }
}

/// A movement intent never cuts a loop short when slowing down: a walk or a
/// run asked to stop, and a run asked to walk, keep playing their clip and
/// frame, lock until the loop ends and remember the request, with no timer
/// restart; a locked clip keeps playing whatever is asked; any other change
/// of clip starts the asked clip at frame 0 with a timer restart. The facing
/// always follows the intent.
pub proof fn law_intent_finishes_slowing_loops(a: SpriteAnimation, desired: AnimationState, new_dir: EightDirection)
    ensures
        ({
            let (b, restart) = intent_result(a, desired, new_dir);
            let slowing = (a.state == AnimationState::Running && (desired == AnimationState::Walking || desired == AnimationState::Idle))
                || (a.state == AnimationState::Walking && desired == AnimationState::Idle);
            &&& b.direction == new_dir
            &&& (a.lock_until_cycle_end || (a.state != desired && slowing)) ==> {
                &&& b.state == a.state
                &&& b.frame_index == a.frame_index
                &&& b.lock_until_cycle_end
                &&& b.pending_state == Some(desired)
                &&& !restart
            }
            &&& (!a.lock_until_cycle_end && a.state != desired && !slowing) ==> {
                &&& b.state == desired
                &&& b.frame_index == 0
                &&& !b.lock_until_cycle_end
                &&& restart
            }
            &&& (!a.lock_until_cycle_end && a.state == desired) ==> b.state == a.state && (restart <==> a.direction != new_dir)
                && (b.frame_index == if restart { 0 } else { a.frame_index })
        }),
{
}

/// Apply a movement intent: `desired` is the gait's clip and `new_dir` the
/// facing of the intent's direction (the current facing when it is zero).
/// Returns the new frame timer in milliseconds when the timer restarts.
pub fn update_animation_from_intent(
    anim: &mut SpriteAnimation,
    set: &LoadoutAnimationSet,
    desired: AnimationState,
    new_dir: EightDirection,
) -> (timer_ms: Option<u64>)
    ensures
        ({
            let (a, restart) = intent_result(*old(anim), desired, new_dir);
            &&& final(anim).state == a.state
            &&& final(anim).direction == a.direction
            &&& final(anim).frame_index == a.frame_index
            &&& final(anim).lock_until_cycle_end == a.lock_until_cycle_end
            &&& final(anim).pending_state == a.pending_state
            &&& final(anim).pending_loadout == a.pending_loadout
            &&& (restart ==> timer_ms == Some(spec_frame_duration_ms(*set, a.state, a.direction, 0)))
            &&& (!restart ==> timer_ms is None)
        }),
{
    if anim.lock_until_cycle_end {
        if anim.pending_state == Some(desired) && anim.direction == new_dir {
            return None;
        }
        anim.pending_state = Some(desired);
        if new_dir != anim.direction {
            anim.direction = new_dir;
        }
        return None;
    }
    let state_changed = anim.state != desired;
    let direction_changed = anim.direction != new_dir;
    if state_changed {
        let finishing = (anim.state == AnimationState::Running || anim.state == AnimationState::Walking)
            && desired == AnimationState::Idle;
        let run_to_walk = anim.state == AnimationState::Running && desired == AnimationState::Walking;
        if finishing || run_to_walk {
            anim.lock_until_cycle_end = true;
            anim.pending_state = Some(desired);
            if direction_changed {
                anim.direction = new_dir;
            }
            return None;
        }
        anim.state = desired;
        anim.frame_index = 0;
    }
    if direction_changed {
        anim.direction = new_dir;
        anim.frame_index = 0;
    }
    if state_changed || direction_changed {
        Some(frame_duration_ms(set, anim))
    } else {
        None
    }
}

/// The animation after its frame timer finished on a clip of `count` frames:
/// the next frame, wrapping; a locked loop that completes switches to the
/// pending state at frame 0.
pub open spec fn advance_result(a: SpriteAnimation, count: int) -> SpriteAnimation {
    let next = ((a.frame_index + 1) % count) as usize;
    let completed = next == 0 && a.frame_index == count - 1;
    if completed && a.lock_until_cycle_end && a.pending_state is Some {
        SpriteAnimation { state: a.pending_state->0, pending_state: None, lock_until_cycle_end: false, frame_index: 0, ..a }
    } else {
        SpriteAnimation { frame_index: next, ..a }
    }
}

/// Advancing a clip of `count` frames steps to the next frame and wraps to
/// frame 0 after the last one; only the end of a loop can switch clips, and a
/// locked loop that ends switches to the clip it was asked for, unlocked.
/// The facing never changes, and the frame stays within the clip.
pub proof fn law_advance_steps_and_wraps(a: SpriteAnimation, count: int)
    requires
        0 < count <= usize::MAX,
        a.frame_index < count,
    ensures
        ({
            let b = advance_result(a, count);
            &&& b.frame_index < count
            &&& b.direction == a.direction
            &&& (a.frame_index + 1 < count ==> b.frame_index == a.frame_index + 1 && b.state == a.state
                && b.lock_until_cycle_end == a.lock_until_cycle_end && b.pending_state == a.pending_state)
            &&& (a.frame_index + 1 == count ==> b.frame_index == 0)
            &&& (a.frame_index + 1 == count && a.lock_until_cycle_end && a.pending_state is Some ==> b.state == a.pending_state->0
                && !b.lock_until_cycle_end && b.pending_state is None)
            &&& (a.frame_index + 1 == count && !(a.lock_until_cycle_end && a.pending_state is Some) ==> b.state == a.state
                && b.lock_until_cycle_end == a.lock_until_cycle_end && b.pending_state == a.pending_state)
        }),
{
    let f = a.frame_index as int;
    if f + 1 < count {
        assert((f + 1) % count == f + 1) by (nonlinear_arith)
            requires
                0 <= f + 1 < count,
        ;
    } else {
        assert((f + 1) % count == 0) by (nonlinear_arith)
            requires
                f + 1 == count,
                count > 0,
        ;
    }
}

/// Advance one frame after the frame timer finished; returns the next
/// frame's duration in milliseconds. `None` when the clip has no frames for
/// the facing, in which case nothing changes.
pub fn advance_sprite_animation(anim: &mut SpriteAnimation, set: &LoadoutAnimationSet) -> (timer_ms: Option<u64>)
    ensures
        ({
            let count = spec_frame_count(*set, old(anim).state, old(anim).direction);
            if count == 0 {
                timer_ms is None && final(anim).state == old(anim).state && final(anim).frame_index == old(anim).frame_index
                    && final(anim).direction == old(anim).direction
                    && final(anim).lock_until_cycle_end == old(anim).lock_until_cycle_end
                    && final(anim).pending_state == old(anim).pending_state
            } else {
                let a = advance_result(*old(anim), count as int);
                &&& final(anim).state == a.state
                &&& final(anim).direction == a.direction
                &&& final(anim).frame_index == a.frame_index
                &&& final(anim).lock_until_cycle_end == a.lock_until_cycle_end
                &&& final(anim).pending_state == a.pending_state
                &&& timer_ms == Some(spec_frame_duration_ms(*set, a.state, a.direction, a.frame_index as int))
            }
        }),
        final(anim).pending_loadout == old(anim).pending_loadout,
{
    let count = current_frame_count(set, anim);
    if count == 0 {
        return None;
    }
    let next = if anim.frame_index < usize::MAX { (anim.frame_index + 1) % count } else { ((anim.frame_index % count) + 1) % count };
    proof {
        if anim.frame_index == usize::MAX {
            let f = anim.frame_index as int;
            let c = count as int;
            assert(((f % c) + 1) % c == (f + 1) % c) by (nonlinear_arith)
                requires
                    c > 0,
            ;
        }
    }
    let completed = next == 0 && anim.frame_index == count - 1;
    anim.frame_index = next;
    if completed && anim.lock_until_cycle_end {
        if let Some(pending) = anim.pending_state {
            anim.state = pending;
            anim.pending_state = None;
            anim.lock_until_cycle_end = false;
            anim.frame_index = 0;
        }
    }
    Some(frame_duration_ms(set, anim))
}

/// Facing index and frame count to show for a clip: the requested facing, or
/// south when that facing has no frames; `None` when neither has frames.
pub open spec fn spec_pick_direction_sheet(sheet: DirectionSheetSet, dir: EightDirection) -> Option<(usize, usize)> {
    let i = direction_ordinal(dir);
    if sheet.frame_counts@[i] != 0 {
        Some((i as usize, sheet.frame_counts@[i]))
    } else if sheet.frame_counts@[0] != 0 {
        Some((0usize, sheet.frame_counts@[0]))
    } else {
        None
    }
}

/// Facing index and frame count to show for a clip.
pub fn pick_direction_sheet(sheet: &DirectionSheetSet, direction: EightDirection) -> (r: Option<(usize, usize)>)
    ensures
        r == spec_pick_direction_sheet(*sheet, direction),
{
    let mut dir_idx = direction.index();
    let mut frame_count = sheet.frame_counts[dir_idx];
    if frame_count == 0 {
        dir_idx = EightDirection::South.index();
        frame_count = sheet.frame_counts[dir_idx];
    }
    if frame_count == 0 {
        return None;
    }
    Some((dir_idx, frame_count))
}

/// The atlas frame shown for an animation: the frame index clamped to the
/// clip's last frame.
pub fn displayed_frame(anim: &SpriteAnimation, frame_count: usize) -> (r: usize)
    requires
        frame_count > 0,
    ensures
        r == (if anim.frame_index < frame_count { anim.frame_index } else { (frame_count - 1) as usize }),
{
    if anim.frame_index < frame_count { anim.frame_index } else { frame_count - 1 }
}

} // verus!

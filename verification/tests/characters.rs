use bloodandbilgewater::animation::{
    advance_sprite_animation, displayed_frame, frame_duration_ms, pick_direction_sheet, sheet_for_state,
    update_animation_from_intent, AnimationState, Gait, SpriteAnimation,
};
use bloodandbilgewater::class_profiles::{
    action_demo_for_role, bare_hands_loadout_for_role, config_for, gait_rules_for, loadout_can_attack,
    loadout_can_locomote, next_loadout_in_cycle, pick_loadout_for_locomotion, position_of,
};
use bloodandbilgewater::control::{
    apply_player_action_input, apply_player_bare_hands, apply_player_loadout_tab, apply_player_movement_intent,
    clear_player_action_on_finish, control_pick, control_toggle, cycle_follow, enter_character_control, hud_visibility, input_facing,
    movement_input, release_character_control, sync_player_locomotion_from_motion, update_lab_input_mode,
    update_player_sprint_state, ControlToggle, LabInputMode, LabPlayerControlState,
};
use bloodandbilgewater::crew::{apply_loadout_swap, start_action_demo, LabActionDemo, LabCharacter};
use bloodandbilgewater::direction::{EightDirection, ThreadDraws};
use bloodandbilgewater::patrol::{
    force_patrol_turn, locomoting, patrol_phase_step, patrol_turn_due, resume_patrol_after_social, LabPatrolAi,
    PatrolPhase, PhaseTimer,
};
use bloodandbilgewater::roles::{role_icon_index, CharacterRole};
use bloodandbilgewater::sheet_paths::{
    action_folders, direction_fallback, direction_index_from_stem, direction_sheet_base, initial_sprite_choice, loadout_root,
    str_contains, walk_uses_run, ClipKind,
};
use bloodandbilgewater::sheets::{
    CharacterAnimationCatalog, CharacterAnimationCatalogs, DirectionSheetSet, LoadoutAnimationSet, LoadoutEntry,
};

fn sheet(counts: [usize; 8]) -> DirectionSheetSet {
    let mut s = DirectionSheetSet::default();
    s.frame_counts = counts;
    for i in 0..8 {
        s.durations_ms[i] = vec![120; counts[i]];
    }
    s
}

fn walking_set() -> LoadoutAnimationSet {
    let mut set = LoadoutAnimationSet::default();
    set.idle = sheet([4; 8]);
    set.walking = sheet([6; 8]);
    set
}

#[test]
fn gait_rules_block_running_with_the_drum() {
    assert!(!gait_rules_for("musician", "drum_hold").can_run);
    assert!(gait_rules_for("musician", "flute").can_run);
    assert!(gait_rules_for("swordsman", "sword").can_run);
}

#[test]
fn tab_cycles_through_the_class_loadouts() {
    let role = CharacterRole::GunnerMarksman;
    assert_eq!(next_loadout_in_cycle(role, "empty"), "pistol");
    assert_eq!(next_loadout_in_cycle(role, "pistol"), "rifle");
    assert_eq!(next_loadout_in_cycle(role, "rifle"), "empty");
    // An unknown loadout counts as the first.
    assert_eq!(next_loadout_in_cycle(role, "cannon"), "pistol");
    let cfg = config_for(CharacterRole::MusicianBosun);
    assert_eq!(cfg.loadouts.len(), 6);
    assert_eq!(cfg.start_facing, EightDirection::South);
    assert_eq!(position_of(&cfg.loadouts, "trumpet"), Some(3));
    assert_eq!(position_of(&cfg.loadouts, "banjo"), None);
}

#[test]
fn bare_hands_and_demo_per_role() {
    assert_eq!(bare_hands_loadout_for_role(CharacterRole::CookQuartermaster), "empty-hands");
    assert_eq!(bare_hands_loadout_for_role(CharacterRole::MusicianBosun), "empty_hands");
    assert_eq!(bare_hands_loadout_for_role(CharacterRole::HistorianScholar), "amulet");
    assert_eq!(bare_hands_loadout_for_role(CharacterRole::SwordsmanBoarder), "empty");
    assert_eq!(action_demo_for_role(CharacterRole::GunnerMarksman), LabActionDemo::Shoot);
    assert_eq!(action_demo_for_role(CharacterRole::Navigator), LabActionDemo::Play);
    assert_eq!(action_demo_for_role(CharacterRole::Helmsman), LabActionDemo::Slash);
    assert_eq!(role_icon_index(CharacterRole::HistorianScholar), 8);
    assert_eq!(CharacterRole::all().len(), 9);
    assert_eq!(CharacterRole::CookQuartermaster.asset_slug(), "cook");
}

#[test]
fn attack_needs_slashing_art() {
    let mut armed = walking_set();
    armed.slashing = sheet([0, 0, 0, 0, 3, 0, 0, 0]);
    let catalog = CharacterAnimationCatalog::from_entries(vec![
        LoadoutEntry { id: "sword".to_string(), animations: armed },
        LoadoutEntry { id: "empty".to_string(), animations: walking_set() },
    ]);
    let mut catalogs = CharacterAnimationCatalogs::default();
    catalogs.insert("swordsman", catalog);
    assert!(loadout_can_attack(&catalogs, "swordsman", "sword"));
    assert!(!loadout_can_attack(&catalogs, "swordsman", "empty"));
    assert!(!loadout_can_attack(&catalogs, "swordsman", "axe"));
    assert!(!loadout_can_attack(&catalogs, "cook", "sword"));
}

#[test]
fn locomotion_picks_the_first_capable_loadout() {
    let mut runner = walking_set();
    runner.running = sheet([5; 8]);
    let catalog = CharacterAnimationCatalog::from_entries(vec![
        LoadoutEntry { id: "empty".to_string(), animations: walking_set() },
        LoadoutEntry { id: "flute".to_string(), animations: runner.clone() },
        LoadoutEntry { id: "drum_hold".to_string(), animations: runner.clone() },
    ]);
    assert!(loadout_can_locomote("musician", "flute", &runner, true));
    assert!(!loadout_can_locomote("musician", "drum_hold", &runner, true));
    let cycle = vec!["drum_hold".to_string(), "empty".to_string(), "flute".to_string()];
    assert_eq!(pick_loadout_for_locomotion("musician", &cycle, &catalog, true, "drum_hold"), Some("flute".to_string()));
    assert_eq!(pick_loadout_for_locomotion("musician", &cycle, &catalog, false, "empty"), None);
    assert_eq!(pick_loadout_for_locomotion("musician", &cycle, &catalog, true, "flute"), None);
}

#[test]
fn directions_round_trip_through_their_index() {
    let all = EightDirection::all();
    assert_eq!(all.len(), 8);
    for (i, d) in all.iter().enumerate() {
        assert_eq!(d.index(), i);
        assert_eq!(EightDirection::from_index(i), *d);
    }
    assert_eq!(EightDirection::NorthEast.to_vec2(), (1, 1));
    assert_eq!(EightDirection::South.file_suffix(), "south");
    assert_eq!(EightDirection::pick_other(Some(EightDirection::South), 0), EightDirection::SouthEast);
    assert_eq!(EightDirection::pick_other(None, 0), EightDirection::South);
    assert_eq!(EightDirection::pick_other(Some(EightDirection::East), 6), EightDirection::SouthWest);
}

#[test]
fn random_turn_never_keeps_the_avoided_facing() {
    let mut rng = ThreadDraws::new(rand::thread_rng());
    for _ in 0..200 {
        let d = EightDirection::random_other(&mut rng, Some(EightDirection::West));
        assert_ne!(d, EightDirection::West);
    }
}

#[test]
fn wasd_maps_to_eight_facings() {
    assert_eq!(movement_input(true, false, false, true), (1, 1));
    assert_eq!(movement_input(true, true, true, false), (-1, 0));
    assert_eq!(input_facing(0, 1), EightDirection::North);
    assert_eq!(input_facing(0, -1), EightDirection::South);
    assert_eq!(input_facing(-1, 0), EightDirection::West);
    assert_eq!(input_facing(1, -1), EightDirection::SouthEast);
    assert_eq!(input_facing(-1, 1), EightDirection::NorthWest);
}

#[test]
fn sprint_latches_only_while_moving_with_shift() {
    let mut state = LabPlayerControlState::default();
    assert_eq!(state.mode, LabInputMode::FreeCam);
    update_player_sprint_state(&mut state, true, true);
    assert!(!state.sprint_latched);
    assert!(update_lab_input_mode(&mut state, true));
    assert_eq!(state.mode, LabInputMode::Follow);
    enter_character_control(&mut state);
    assert!(!update_lab_input_mode(&mut state, true));
    assert_eq!(state.mode, LabInputMode::CharacterControl);
    update_player_sprint_state(&mut state, true, true);
    assert!(state.sprint_latched);
    update_player_sprint_state(&mut state, false, true);
    assert!(!state.sprint_latched);
    release_character_control(&mut state);
    assert_eq!(state.mode, LabInputMode::FreeCam);
}

#[test]
fn sheet_fallbacks_follow_the_loaded_art() {
    let set = walking_set();
    assert_eq!(sheet_for_state(&set, AnimationState::Running).frame_counts, [6; 8]);
    assert_eq!(sheet_for_state(&set, AnimationState::Slashing).frame_counts, [4; 8]);
    let idle_only = sheet([0, 0, 0, 0, 2, 0, 0, 0]);
    assert_eq!(pick_direction_sheet(&idle_only, EightDirection::North), Some((4, 2)));
    assert_eq!(pick_direction_sheet(&idle_only, EightDirection::East), None);
    assert_eq!(pick_direction_sheet(&sheet([3; 8]), EightDirection::East), Some((2, 3)));
}

#[test]
fn walk_to_idle_finishes_the_loop_first() {
    let set = walking_set();
    let mut anim = SpriteAnimation::default();
    assert_eq!(frame_duration_ms(&set, &anim), 120);
    let t = update_animation_from_intent(&mut anim, &set, AnimationState::Walking, EightDirection::East);
    assert_eq!(t, Some(120));
    assert_eq!((anim.state, anim.direction, anim.frame_index), (AnimationState::Walking, EightDirection::East, 0));
    let t = update_animation_from_intent(&mut anim, &set, AnimationState::Idle, EightDirection::East);
    assert_eq!(t, None);
    assert!(anim.lock_until_cycle_end);
    assert_eq!(anim.pending_state, Some(AnimationState::Idle));
    for expected in 1..6 {
        assert_eq!(advance_sprite_animation(&mut anim, &set), Some(120));
        assert_eq!(anim.frame_index, expected);
        assert_eq!(anim.state, AnimationState::Walking);
    }
    advance_sprite_animation(&mut anim, &set);
    assert_eq!((anim.state, anim.frame_index), (AnimationState::Idle, 0));
    assert!(!anim.lock_until_cycle_end);
    assert_eq!(anim.pending_state, None);
    assert_eq!(displayed_frame(&anim, 4), 0);
    anim.frame_index = 9;
    assert_eq!(displayed_frame(&anim, 4), 3);
}

#[test]
fn advancing_without_frames_changes_nothing() {
    let set = LoadoutAnimationSet::default();
    let mut anim = SpriteAnimation::default();
    assert_eq!(advance_sprite_animation(&mut anim, &set), None);
    assert_eq!(anim.frame_index, 0);
}

#[test]
fn gait_clips() {
    assert!(Gait::Run.is_moving());
    assert!(!Gait::Idle.is_moving());
    assert_eq!(Gait::Walk.animation_state(), AnimationState::Walking);
}

fn patrol(loadouts: &[&str], demo: LabActionDemo) -> LabPatrolAi {
    let v: Vec<&str> = loadouts.to_vec();
    let (p, first_ms) = LabPatrolAi::new(&v, EightDirection::North, demo);
    assert_eq!(first_ms, 600);
    p
}

#[test]
fn patrol_walks_runs_and_slows() {
    let mut p = patrol(&["empty"], LabActionDemo::NoDemo);
    assert_eq!(p.phase, PatrolPhase::PreMoveIdle);
    assert_eq!(p.direction_index, 4);
    let mut ch = LabCharacter::new("navigator", "empty");
    let mut anim = SpriteAnimation::default();
    let step = |p: &mut LabPatrolAi, ch: &mut LabCharacter, anim: &mut SpriteAnimation, done: bool, can_run: bool| {
        patrol_phase_step(p, ch, anim, done, can_run, None, EightDirection::South)
    };
    assert_eq!(step(&mut p, &mut ch, &mut anim, false, true), (Gait::Idle, None));
    assert_eq!(step(&mut p, &mut ch, &mut anim, true, true), (Gait::Walk, Some(PhaseTimer::RandomWalk)));
    assert_eq!(p.phase, PatrolPhase::Walk);
    assert!(locomoting(p.phase, Gait::Walk));
    assert_eq!(step(&mut p, &mut ch, &mut anim, true, true), (Gait::Run, Some(PhaseTimer::RandomRun)));
    assert_eq!(step(&mut p, &mut ch, &mut anim, true, true), (Gait::Walk, Some(PhaseTimer::Millis(900))));
    assert_eq!(p.phase, PatrolPhase::DecelWalk);
    assert_eq!(step(&mut p, &mut ch, &mut anim, true, true), (Gait::Idle, Some(PhaseTimer::Millis(550))));
    assert!(patrol_turn_due(&p, true));
    assert_eq!(step(&mut p, &mut ch, &mut anim, true, true), (Gait::Idle, Some(PhaseTimer::Millis(350))));
    assert_eq!(p.phase, PatrolPhase::TurnPause);
    assert_eq!(p.facing, EightDirection::South);
}

#[test]
fn patrol_that_cannot_run_slows_from_the_walk() {
    let mut p = patrol(&["drum_hold"], LabActionDemo::NoDemo);
    let mut ch = LabCharacter::new("musician", "drum_hold");
    let mut anim = SpriteAnimation::default();
    patrol_phase_step(&mut p, &mut ch, &mut anim, true, false, None, EightDirection::South);
    let r = patrol_phase_step(&mut p, &mut ch, &mut anim, true, false, None, EightDirection::South);
    assert_eq!(r, (Gait::Walk, Some(PhaseTimer::Millis(800))));
    assert_eq!(p.phase, PatrolPhase::DecelWalk);
}

#[test]
fn forced_turn_snaps_the_sprite_to_idle() {
    let mut p = patrol(&["sword", "empty"], LabActionDemo::Slash);
    let mut anim = SpriteAnimation::default();
    anim.state = AnimationState::Running;
    anim.frame_index = 3;
    anim.lock_until_cycle_end = true;
    let r = force_patrol_turn(&mut p, &mut anim, EightDirection::West);
    assert_eq!(r, (Gait::Idle, 350));
    assert_eq!(p.phase, PatrolPhase::TurnPause);
    assert_eq!(p.facing, EightDirection::West);
    assert_eq!((anim.state, anim.direction, anim.frame_index), (AnimationState::Idle, EightDirection::West, 0));
    assert!(!anim.lock_until_cycle_end);
    let r = resume_patrol_after_social(&mut p, EightDirection::NorthEast);
    assert_eq!(r, (Gait::Idle, 400));
    assert_eq!(p.phase, PatrolPhase::PreMoveIdle);
    p.advance_direction();
    assert_eq!(p.facing, EightDirection::North);
}

#[test]
fn stems_name_their_facing() {
    assert!(str_contains("idle-north-sheet", "north"));
    assert!(!str_contains("idle", "idle-north"));
    assert!(str_contains("abc", ""));
    assert_eq!(direction_index_from_stem("walk-north-sheet"), Some(4));
    assert_eq!(direction_index_from_stem("walk-west-sheet"), Some(6));
    // Canonical order tries `south` before `southeast`.
    assert_eq!(direction_index_from_stem("walk-southeast-sheet"), Some(0));
    // The misspelt exports hold a canonical suffix, which is found first.
    assert_eq!(direction_index_from_stem("walk-norheast-sheet"), Some(2));
    assert_eq!(direction_index_from_stem("walk-nortwest-sheet"), Some(6));
    assert_eq!(direction_index_from_stem("idle-sheet"), None);
    assert_eq!(direction_fallback("south"), vec!["wouth"]);
    assert_eq!(direction_fallback("southwest"), vec!["southeast"]);
    assert!(direction_fallback("east").is_empty());
}

#[test]
fn sheet_paths_are_assembled_in_order() {
    assert_eq!(
        direction_sheet_base("runtime/x", "walking", "walk", "north"),
        "runtime/x/walking/walk-north-sheet"
    );
    assert_eq!(
        loadout_root("swordsman", "sword"),
        "runtime/characters/player_default/swordsman/loadouts/sword"
    );
}

#[test]
fn first_clip_prefers_idle_then_walking() {
    let mut set = LoadoutAnimationSet::default();
    assert_eq!(initial_sprite_choice(&set, EightDirection::East), None);
    set.walking = sheet([0, 0, 0, 0, 0, 0, 3, 0]);
    assert_eq!(initial_sprite_choice(&set, EightDirection::East), Some((ClipKind::Walking, 6)));
    set.idle = sheet([2, 0, 0, 0, 0, 0, 0, 0]);
    assert_eq!(initial_sprite_choice(&set, EightDirection::East), Some((ClipKind::Idle, 0)));
    set.idle = sheet([2, 0, 2, 0, 0, 0, 0, 0]);
    assert_eq!(initial_sprite_choice(&set, EightDirection::East), Some((ClipKind::Idle, 2)));
    assert!(!walk_uses_run(&set.walking, &set.running));
    assert!(walk_uses_run(&DirectionSheetSet::default(), &sheet([1; 8])));
}

#[test]
fn loadout_swaps_restart_the_clip() {
    let mut ch = LabCharacter::new("helmsman", "empty");
    let mut anim = SpriteAnimation::default();
    assert_eq!(apply_loadout_swap(&mut ch, &mut anim), None);
    ch.pending_loadout = Some("dual-axe".to_string());
    anim.frame_index = 5;
    anim.lock_until_cycle_end = true;
    anim.pending_state = Some(AnimationState::Idle);
    assert_eq!(apply_loadout_swap(&mut ch, &mut anim), Some(100));
    assert_eq!(ch.loadout, "dual-axe");
    assert_eq!(ch.pending_loadout, None);
    assert_eq!((anim.frame_index, anim.lock_until_cycle_end, anim.pending_state), (0, false, None));
}

#[test]
fn demo_actions_lock_into_the_slash_clip() {
    let mut ch = LabCharacter::new("swordsman", "sword");
    let mut anim = SpriteAnimation::default();
    assert_eq!(start_action_demo(&ch, &mut anim), None);
    ch.action_demo = LabActionDemo::Slash;
    anim.frame_index = 2;
    assert_eq!(start_action_demo(&ch, &mut anim), Some(80));
    assert_eq!(anim.state, AnimationState::Slashing);
    assert_eq!(anim.pending_state, Some(AnimationState::Slashing));
    assert!(anim.lock_until_cycle_end);
    assert_eq!(anim.frame_index, 0);
    anim.frame_index = 1;
    assert_eq!(start_action_demo(&ch, &mut anim), None);
    assert_eq!(anim.frame_index, 1);
}

#[test]
fn action_folders_are_tried_slash_first_and_mele_under_attacks() {
    let folders = action_folders();
    assert_eq!(folders.len(), 9);
    assert_eq!(folders[0], ("slashing", "slashing"));
    assert_eq!(folders[4], ("attacks", "mele"));
    assert_eq!(folders[8], ("kneeled-shooting", "kneeled-shooting"));
}

fn musician_catalogs() -> CharacterAnimationCatalogs {
    let mut runner = walking_set();
    runner.running = sheet([5; 8]);
    runner.slashing = sheet([4; 8]);
    let catalog = CharacterAnimationCatalog::from_entries(vec![
        LoadoutEntry { id: "empty_hands".to_string(), animations: LoadoutAnimationSet::default() },
        LoadoutEntry { id: "flute".to_string(), animations: runner.clone() },
        LoadoutEntry { id: "drum_hold".to_string(), animations: runner },
    ]);
    let mut catalogs = CharacterAnimationCatalogs::default();
    catalogs.insert("musician", catalog);
    catalogs
}

fn playing(sprint: bool) -> LabPlayerControlState {
    LabPlayerControlState { mode: LabInputMode::CharacterControl, sprint_latched: sprint }
}

#[test]
fn player_walks_and_runs_where_the_art_allows() {
    let catalogs = musician_catalogs();
    let flute = LabCharacter::new("musician", "flute");
    let mut anim = SpriteAnimation::default();
    let mut state = playing(false);
    let walk = apply_player_movement_intent(&mut state, &catalogs, &flute, &mut anim, 1, 0);
    assert_eq!(walk.gait, Gait::Walk);
    assert!(walk.follow_input && walk.message.is_none());
    assert_eq!(anim.direction, EightDirection::East);
    let mut state = playing(true);
    let run = apply_player_movement_intent(&mut state, &catalogs, &flute, &mut anim, -1, 1);
    assert_eq!(run.gait, Gait::Run);
    assert_eq!(anim.direction, EightDirection::NorthWest);
    assert!(state.sprint_latched);
    let idle = apply_player_movement_intent(&mut state, &catalogs, &flute, &mut anim, 0, 0);
    assert_eq!(idle.gait, Gait::Idle);
    assert!(!idle.follow_input);
    assert_eq!(anim.direction, EightDirection::NorthWest);
}

#[test]
fn player_sprint_is_refused_with_the_drum_held() {
    let catalogs = musician_catalogs();
    let drum = LabCharacter::new("musician", "drum_hold");
    let mut anim = SpriteAnimation::default();
    let mut state = playing(true);
    let r = apply_player_movement_intent(&mut state, &catalogs, &drum, &mut anim, 0, -1);
    assert_eq!(r.gait, Gait::Walk);
    assert!(!state.sprint_latched);
    let m = r.message.expect("a refusal");
    assert_eq!(m.text, "Cannot run in this state");
    assert_eq!(m.millis, 1800);
}

#[test]
fn player_without_walking_art_stands_with_a_message() {
    let catalogs = musician_catalogs();
    let bare = LabCharacter::new("musician", "empty_hands");
    let mut anim = SpriteAnimation::default();
    let mut state = playing(false);
    let r = apply_player_movement_intent(&mut state, &catalogs, &bare, &mut anim, 0, 1);
    assert_eq!(r.gait, Gait::Idle);
    assert!(!r.follow_input);
    let m = r.message.expect("a refusal");
    assert_eq!(m.text, "Cannot walk or run in this state");
    assert_eq!(m.millis, 2000);
    // An unknown class has no art at all.
    let stranger = LabCharacter::new("pirate", "flute");
    let r = apply_player_movement_intent(&mut state, &catalogs, &stranger, &mut anim, 0, 1);
    assert_eq!(r.gait, Gait::Idle);
}

#[test]
fn player_attack_starts_a_locked_slash_or_is_refused() {
    let catalogs = musician_catalogs();
    let mut flute = LabCharacter::new("musician", "flute");
    let mut anim = SpriteAnimation::default();
    let r = apply_player_action_input(
        CharacterRole::MusicianBosun,
        &catalogs,
        &mut flute,
        &mut anim,
        Some(EightDirection::West),
    );
    assert!(matches!(r, Ok(Gait::Idle)));
    assert_eq!(flute.action_demo, LabActionDemo::Play);
    assert_eq!(anim.state, AnimationState::Slashing);
    assert!(anim.lock_until_cycle_end);
    assert_eq!(anim.frame_index, 0);
    assert_eq!(anim.direction, EightDirection::West);
    // The slash still runs, so the demo stays.
    clear_player_action_on_finish(&mut flute, &anim);
    assert_eq!(flute.action_demo, LabActionDemo::Play);
    anim.state = AnimationState::Idle;
    anim.lock_until_cycle_end = false;
    clear_player_action_on_finish(&mut flute, &anim);
    assert_eq!(flute.action_demo, LabActionDemo::NoDemo);

    let mut bare = LabCharacter::new("musician", "empty_hands");
    let mut anim = SpriteAnimation::default();
    let err = apply_player_action_input(CharacterRole::MusicianBosun, &catalogs, &mut bare, &mut anim, None)
        .expect_err("no slash art");
    assert_eq!(err.text, "You cannot attack in this state \u{2014} switch to another one");
    assert_eq!(err.millis, 2200);
    assert_eq!(bare.action_demo, LabActionDemo::NoDemo);
    assert_eq!(anim.state, AnimationState::Idle);
}

#[test]
fn tab_and_q_change_the_held_loadout() {
    let mut c = LabCharacter::new("musician", "flute");
    apply_player_loadout_tab(CharacterRole::MusicianBosun, &mut c);
    assert_eq!(c.loadout, "guitar");
    assert_eq!(c.pending_loadout.as_deref(), Some("guitar"));
    apply_player_bare_hands(CharacterRole::MusicianBosun, &mut c);
    assert_eq!(c.loadout, "empty_hands");
    assert_eq!(c.pending_loadout.as_deref(), Some("empty_hands"));
}

#[test]
fn stuck_walk_shows_idle_unless_slashing() {
    let mut anim = SpriteAnimation::default();
    assert_eq!(sync_player_locomotion_from_motion(&anim, Gait::Walk, true), Gait::Idle);
    assert_eq!(sync_player_locomotion_from_motion(&anim, Gait::Run, false), Gait::Run);
    assert_eq!(sync_player_locomotion_from_motion(&anim, Gait::Idle, true), Gait::Idle);
    anim.state = AnimationState::Slashing;
    anim.lock_until_cycle_end = true;
    assert_eq!(sync_player_locomotion_from_motion(&anim, Gait::Walk, true), Gait::Walk);
}

#[test]
fn control_shortcut_and_hud_follow_the_input_mode() {
    assert_eq!(control_toggle(LabInputMode::Follow), ControlToggle::Enter);
    assert_eq!(control_toggle(LabInputMode::CharacterControl), ControlToggle::Release);
    assert_eq!(control_toggle(LabInputMode::FreeCam), ControlToggle::Ignore);
    let free = hud_visibility(LabInputMode::FreeCam, false, true);
    assert!(!free.panel && !free.corner_message && !free.center_message);
    let centred = hud_visibility(LabInputMode::CharacterControl, false, true);
    assert!(centred.panel && !centred.corner_message && centred.center_message);
    let corner = hud_visibility(LabInputMode::Follow, false, false);
    assert!(corner.panel && corner.corner_message && !corner.center_message);
    let quiet = hud_visibility(LabInputMode::Follow, true, false);
    assert!(quiet.panel && !quiet.corner_message && !quiet.center_message);
}

#[test]
fn follow_cycles_and_control_takes_the_followed_member() {
    assert_eq!(cycle_follow(0, 9, true, false), 8);
    assert_eq!(cycle_follow(8, 9, false, true), 0);
    assert_eq!(cycle_follow(3, 9, true, true), 3);
    assert_eq!(cycle_follow(4, 0, true, true), 4);
    assert_eq!(control_pick(9, 4), Some(4));
    assert_eq!(control_pick(9, 12), Some(0));
    assert_eq!(control_pick(0, 0), None);
}

#[test]
fn tab_visits_every_loadout_once_and_wraps() {
    for role in CharacterRole::all() {
        let cycle = config_for(role).loadouts;
        for start in cycle.iter() {
            let mut seen: Vec<String> = Vec::new();
            let mut cur = start.to_string();
            for _ in 0..cycle.len() {
                seen.push(cur.clone());
                cur = next_loadout_in_cycle(role, &cur);
            }
            assert_eq!(&cur, start);
            let mut sorted = seen.clone();
            sorted.sort();
            sorted.dedup();
            assert_eq!(sorted.len(), cycle.len());
            assert!(cycle.iter().all(|l| seen.iter().any(|s| s == l)));
        }
    }
    assert_eq!(config_for(CharacterRole::GunnerMarksman).loadouts, vec!["empty", "pistol", "rifle"]);
}

#[test]
fn patrol_only_plays_its_own_demo() {
    let mut p = patrol(&["sword", "empty"], LabActionDemo::Slash);
    let mut ch = LabCharacter::new("swordsman", "sword");
    let mut anim = SpriteAnimation::default();
    let mut saw_demo = false;
    for k in 0..40 {
        let can_run = k % 3 != 0;
        patrol_phase_step(&mut p, &mut ch, &mut anim, k % 2 == 0, can_run, None, EightDirection::East);
        assert!(ch.action_demo == LabActionDemo::NoDemo || ch.action_demo == LabActionDemo::Slash);
        saw_demo |= ch.action_demo == LabActionDemo::Slash;
    }
    assert!(saw_demo);
}

//! Keyboard decisions of the island generation lab: which command a key
//! gives, how view toggles and render invalidation follow from a command,
//! and the status line each command leaves. Generating, saving and drawing
//! are the caller's.

use vstd::prelude::*;
use crate::island::recipe::{
    IslandGenRecipe, GenStage, DEFAULT_SEED, stage_of, stage_label, synced_recipe, next_pair_index,
    prev_pair_index,
};
use crate::island::types::{Biome, biome_label, GridStats};
use crate::text::{append_digits, append_padded, digits, padded_digits};

verus! {

/// How terrain is drawn: 64 px display tiles or the 32 px subtile experiment.
#[derive(Clone, Copy, Debug, PartialEq, Eq, Structural)]
pub enum TerrainRenderMode {
    Display64,
    Experimental32,
}

/// Name of a render mode as the status line shows it.
pub open spec fn render_mode_name(m: TerrainRenderMode) -> Seq<char> {
    match m {
        TerrainRenderMode::Display64 => "Display64"@,
        TerrainRenderMode::Experimental32 => "Experimental32"@,
    }
}

impl TerrainRenderMode {
    /// The other mode.
    pub fn toggled(self) -> (r: TerrainRenderMode)
        ensures
            r != self,
    {
        match self {
            TerrainRenderMode::Display64 => TerrainRenderMode::Experimental32,
            TerrainRenderMode::Experimental32 => TerrainRenderMode::Display64,
        }
    }

    /// Name as the status line shows it.
    pub fn name(self) -> (r: &'static str)
        ensures
            r@ == render_mode_name(self),
    {
        match self {
            TerrainRenderMode::Display64 => "Display64",
            TerrainRenderMode::Experimental32 => "Experimental32",
        }
    }
}

/// What a key asks of the lab.
#[derive(Clone, Copy, Debug, PartialEq, Eq, Structural)]
pub enum IslandGenCommand {
    SetStage(GenStage),
    NewSeed,
    Regenerate,
    CyclePairNext,
    CyclePairPrev,
    ToggleRenderMode,
    ToggleRoleLockDebug,
    ToggleStats,
    Save,
    LoadNext,
    LoadPrev,
    Clear,
    ToggleCellGrid,
    ToggleDisplayGrid,
    ToggleTransitionOverlay,
    TogglePatchSizeDebug,
    ToggleHelp,
}

/// Command of a key, named by its upper-case letter or digit: digits 1-7
/// pick stages 0-6; `B` cycles the Home Mix forward, or back with shift.
pub open spec fn spec_command_for_key(key: char, shift: bool) -> Option<IslandGenCommand> {
    if '1' <= key <= '7' {
        Some(IslandGenCommand::SetStage(stage_of((key as int - '1' as int) as u8)))
    } else if key == 'N' {
        Some(IslandGenCommand::NewSeed)
    } else if key == 'R' {
        Some(IslandGenCommand::Regenerate)
    } else if key == 'B' {
        Some(if shift { IslandGenCommand::CyclePairPrev } else { IslandGenCommand::CyclePairNext })
    } else if key == 'M' {
        Some(IslandGenCommand::ToggleRenderMode)
    } else if key == 'J' {
        Some(IslandGenCommand::ToggleRoleLockDebug)
    } else if key == 'Y' {
        Some(IslandGenCommand::ToggleStats)
    } else if key == 'S' {
        Some(IslandGenCommand::Save)
    } else if key == 'L' {
        Some(IslandGenCommand::LoadNext)
    } else if key == 'K' {
        Some(IslandGenCommand::LoadPrev)
    } else if key == 'C' {
        Some(IslandGenCommand::Clear)
    } else if key == 'G' {
        Some(IslandGenCommand::ToggleCellGrid)
    } else if key == 'T' {
        Some(IslandGenCommand::ToggleDisplayGrid)
    } else if key == 'O' {
        Some(IslandGenCommand::ToggleTransitionOverlay)
    } else if key == 'P' {
        Some(IslandGenCommand::TogglePatchSizeDebug)
    } else if key == 'H' {
        Some(IslandGenCommand::ToggleHelp)
    } else {
        None
    }
}

/// Command of a key; `None` for a key the lab ignores.
pub fn command_for_key(key: char, shift: bool) -> (r: Option<IslandGenCommand>)
    ensures
        r == spec_command_for_key(key, shift),
{
    if '1' <= key && key <= '7' {
        let d: u8 = match key {
            '1' => 0,
            '2' => 1,
            '3' => 2,
            '4' => 3,
            '5' => 4,
            '6' => 5,
            _ => 6,
        };
        assert(d as int == key as int - '1' as int);
        return Some(IslandGenCommand::SetStage(GenStage::from_u8(d)));
    }
    match key {
        'N' => Some(IslandGenCommand::NewSeed),
        'R' => Some(IslandGenCommand::Regenerate),
        'B' => Some(if shift { IslandGenCommand::CyclePairPrev } else { IslandGenCommand::CyclePairNext }),
        'M' => Some(IslandGenCommand::ToggleRenderMode),
        'J' => Some(IslandGenCommand::ToggleRoleLockDebug),
        'Y' => Some(IslandGenCommand::ToggleStats),
        'S' => Some(IslandGenCommand::Save),
        'L' => Some(IslandGenCommand::LoadNext),
        'K' => Some(IslandGenCommand::LoadPrev),
        'C' => Some(IslandGenCommand::Clear),
        'G' => Some(IslandGenCommand::ToggleCellGrid),
        'T' => Some(IslandGenCommand::ToggleDisplayGrid),
        'O' => Some(IslandGenCommand::ToggleTransitionOverlay),
        'P' => Some(IslandGenCommand::TogglePatchSizeDebug),
        'H' => Some(IslandGenCommand::ToggleHelp),
        _ => None,
    }
}

/// Whether a command regenerates the island (after its recipe or stage
/// change, where it makes one).
pub open spec fn spec_regenerates(cmd: IslandGenCommand) -> bool {
    match cmd {
        IslandGenCommand::SetStage(_) | IslandGenCommand::NewSeed | IslandGenCommand::Regenerate
        | IslandGenCommand::CyclePairNext | IslandGenCommand::CyclePairPrev
        | IslandGenCommand::Clear => true,
        _ => false,
    }
}

/// Whether a command regenerates the island.
pub fn regenerates(cmd: IslandGenCommand) -> (r: bool)
    ensures
        r == spec_regenerates(cmd),
{
    match cmd {
        IslandGenCommand::SetStage(_) | IslandGenCommand::NewSeed | IslandGenCommand::Regenerate
        | IslandGenCommand::CyclePairNext | IslandGenCommand::CyclePairPrev
        | IslandGenCommand::Clear => true,
        _ => false,
    }
}

/// What the lab shows besides the terrain.
#[derive(Clone, Copy, Debug, PartialEq, Eq, Structural)]
pub struct IslandGenViewFlags {
    pub render_mode: TerrainRenderMode,
    pub render_dirty: bool,
    pub show_cell_grid: bool,
    pub show_display_grid: bool,
    pub show_transition_overlay: bool,
    pub show_role_lock_debug: bool,
    pub show_patch_size_debug: bool,
    pub show_stats: bool,
    pub show_help: bool,
}

/// The flags the lab opens with: display tiles, stats and help shown, a
/// render pending.
pub open spec fn default_view_flags() -> IslandGenViewFlags {
    IslandGenViewFlags {
        render_mode: TerrainRenderMode::Display64,
        render_dirty: true,
        show_cell_grid: false,
        show_display_grid: false,
        show_transition_overlay: false,
        show_role_lock_debug: false,
        show_patch_size_debug: false,
        show_stats: true,
        show_help: true,
    }
}

impl Default for IslandGenViewFlags {
    fn default() -> (r: Self)
        ensures
            r == default_view_flags(),
    {
        IslandGenViewFlags {
            render_mode: TerrainRenderMode::Display64,
            render_dirty: true,
            show_cell_grid: false,
            show_display_grid: false,
            show_transition_overlay: false,
            show_role_lock_debug: false,
            show_patch_size_debug: false,
            show_stats: true,
            show_help: true,
        }
    }
}

/// Which parts of the drawn lab are out of date.
#[derive(Clone, Copy, Debug, PartialEq, Eq, Structural)]
pub struct RenderInvalidation {
    pub full_rebuild: bool,
    pub grids_dirty: bool,
    pub overlays_dirty: bool,
}

/// Flags after a command: a regeneration and a render-mode switch mark the
/// render dirty; each toggle flips its own flag; others leave them.
pub open spec fn spec_view_after(f: IslandGenViewFlags, cmd: IslandGenCommand) -> IslandGenViewFlags {
    match cmd {
        IslandGenCommand::ToggleRenderMode => IslandGenViewFlags {
            render_mode: match f.render_mode {
                TerrainRenderMode::Display64 => TerrainRenderMode::Experimental32,
                TerrainRenderMode::Experimental32 => TerrainRenderMode::Display64,
            },
            render_dirty: true,
            ..f
        },
        IslandGenCommand::ToggleRoleLockDebug => IslandGenViewFlags { show_role_lock_debug: !f.show_role_lock_debug, ..f },
        IslandGenCommand::ToggleStats => IslandGenViewFlags { show_stats: !f.show_stats, ..f },
        IslandGenCommand::ToggleCellGrid => IslandGenViewFlags { show_cell_grid: !f.show_cell_grid, ..f },
        IslandGenCommand::ToggleDisplayGrid => IslandGenViewFlags { show_display_grid: !f.show_display_grid, ..f },
        IslandGenCommand::ToggleTransitionOverlay => IslandGenViewFlags { show_transition_overlay: !f.show_transition_overlay, ..f },
        IslandGenCommand::TogglePatchSizeDebug => IslandGenViewFlags { show_patch_size_debug: !f.show_patch_size_debug, ..f },
        IslandGenCommand::ToggleHelp => IslandGenViewFlags { show_help: !f.show_help, ..f },
        _ => if spec_regenerates(cmd) { IslandGenViewFlags { render_dirty: true, ..f } } else { f },
    }
}

/// Invalidation after a command: grid toggles dirty the grids, overlay
/// toggles the overlays; others leave it.
pub open spec fn spec_invalidation_after(q: RenderInvalidation, cmd: IslandGenCommand) -> RenderInvalidation {
    match cmd {
        IslandGenCommand::ToggleCellGrid | IslandGenCommand::ToggleDisplayGrid =>
            RenderInvalidation { grids_dirty: true, ..q },
        IslandGenCommand::ToggleRoleLockDebug | IslandGenCommand::ToggleTransitionOverlay
        | IslandGenCommand::TogglePatchSizeDebug => RenderInvalidation { overlays_dirty: true, ..q },
        _ => q,
    }
}

/// Pressing a view toggle twice restores the view flags, and the render mode
/// too, save that a render-mode switch leaves a render pending.
pub proof fn law_view_toggle_twice(f: IslandGenViewFlags, cmd: IslandGenCommand)
    requires
        !spec_regenerates(cmd),
    ensures
        cmd != IslandGenCommand::ToggleRenderMode ==> spec_view_after(spec_view_after(f, cmd), cmd) == f,
        cmd == IslandGenCommand::ToggleRenderMode ==> spec_view_after(spec_view_after(f, cmd), cmd)
            == (IslandGenViewFlags { render_dirty: true, ..f }),
{
}

/// Apply a command's effect on the view flags and the render queue.
pub fn apply_view_command(flags: &mut IslandGenViewFlags, queue: &mut RenderInvalidation, cmd: IslandGenCommand)
    ensures
        *final(flags) == spec_view_after(*old(flags), cmd),
        *final(queue) == spec_invalidation_after(*old(queue), cmd),
{
    match cmd {
        IslandGenCommand::ToggleRenderMode => {
            flags.render_mode = flags.render_mode.toggled();
            flags.render_dirty = true;
        },
        IslandGenCommand::ToggleRoleLockDebug => {
            flags.show_role_lock_debug = !flags.show_role_lock_debug;
            queue.overlays_dirty = true;
        },
        IslandGenCommand::ToggleStats => {
            flags.show_stats = !flags.show_stats;
        },
        IslandGenCommand::ToggleCellGrid => {
            flags.show_cell_grid = !flags.show_cell_grid;
            queue.grids_dirty = true;
        },
        IslandGenCommand::ToggleDisplayGrid => {
            flags.show_display_grid = !flags.show_display_grid;
            queue.grids_dirty = true;
        },
        IslandGenCommand::ToggleTransitionOverlay => {
            flags.show_transition_overlay = !flags.show_transition_overlay;
            queue.overlays_dirty = true;
        },
        IslandGenCommand::TogglePatchSizeDebug => {
            flags.show_patch_size_debug = !flags.show_patch_size_debug;
            queue.overlays_dirty = true;
        },
        IslandGenCommand::ToggleHelp => {
            flags.show_help = !flags.show_help;
        },
        _ => {
            if regenerates(cmd) {
                flags.render_dirty = true;
            }
        },
    }
}

/// End of a frame: a pending render becomes a full rebuild.
pub fn flush_render_dirty(flags: &mut IslandGenViewFlags, queue: &mut RenderInvalidation)
    ensures
        !final(flags).render_dirty,
        *final(flags) == (IslandGenViewFlags { render_dirty: false, ..*old(flags) }),
        *final(queue) == (RenderInvalidation { full_rebuild: old(queue).full_rebuild || old(flags).render_dirty, ..*old(queue) }),
{
    if flags.render_dirty {
        queue.full_rebuild = true;
        flags.render_dirty = false;
    }
}

/// Recipe and stage after a command that changes them: `Clear` restores the
/// default seed at the base stage; `NewSeed` takes `fresh_seed`; the Home Mix
/// cycles move the pair cursor. Other commands leave both.
pub fn recipe_after_command(recipe: &mut IslandGenRecipe, stage: &mut GenStage, cmd: IslandGenCommand, fresh_seed: u32)
    ensures
        match cmd {
            IslandGenCommand::SetStage(s) => *final(stage) == s && *final(recipe) == *old(recipe),
            IslandGenCommand::NewSeed => *final(recipe) == (IslandGenRecipe { seed: fresh_seed, ..*old(recipe) })
                && *final(stage) == *old(stage),
            IslandGenCommand::Clear => *final(recipe) == (IslandGenRecipe { seed: DEFAULT_SEED, ..*old(recipe) })
                && *final(stage) == GenStage::BaseWorld,
            IslandGenCommand::CyclePairNext => *final(recipe) == synced_recipe(
                IslandGenRecipe { pair_index: next_pair_index(old(recipe).pair_index), ..*old(recipe) },
            ) && *final(stage) == *old(stage),
            IslandGenCommand::CyclePairPrev => *final(recipe) == synced_recipe(
                IslandGenRecipe { pair_index: prev_pair_index(old(recipe).pair_index), ..*old(recipe) },
            ) && *final(stage) == *old(stage),
            _ => *final(recipe) == *old(recipe) && *final(stage) == *old(stage),
        },
{
    match cmd {
        IslandGenCommand::SetStage(s) => {
            *stage = s;
        },
        IslandGenCommand::NewSeed => {
            recipe.seed = fresh_seed;
        },
        IslandGenCommand::Clear => {
            recipe.seed = DEFAULT_SEED;
            *stage = GenStage::BaseWorld;
        },
        IslandGenCommand::CyclePairNext => {
            recipe.cycle_pair_next();
        },
        IslandGenCommand::CyclePairPrev => {
            recipe.cycle_pair_prev();
        },
        _ => {},
    }
}

/// Status line after switching the render mode.
pub fn render_mode_message(mode: TerrainRenderMode) -> (r: String)
    ensures
        r@ == "Render mode: "@ + render_mode_name(mode),
{
    let mut s = String::from_str("Render mode: ");
    s.append(mode.name());
    proof {
        reveal_strlit("Render mode: ");
    }
    s
}

/// Status line after cycling the Home Mix.
pub fn home_mix_message(recipe: &IslandGenRecipe) -> (r: String)
    ensures
        r@ == "Home Mix: "@ + biome_label(recipe.primary_biome) + " + "@ + biome_label(recipe.secondary_biome),
{
    let (a, b) = recipe.active_pair();
    let mut s = String::from_str("Home Mix: ");
    s.append(a.label());
    s.append(" + ");
    s.append(b.label());
    s
}

/// Status line after a regeneration: the seed as eight upper-case hex
/// digits, then the stage label.
pub fn regenerated_message(seed: u32, stage: GenStage) -> (r: String)
    ensures
        r@ == "Regenerated seed="@ + padded_digits(seed as nat, 16, 8) + " "@ + stage_label(stage),
{
    let mut s = String::from_str("Regenerated seed=");
    append_padded(&mut s, seed as u64, 16, 8);
    s.append(" ");
    s.append(stage.label());
    s
}

/// Status line after loading a save: the cursor counted from one, over the
/// number of saves (at least one).
pub fn loaded_save_message(cursor: usize, count: usize) -> (r: String)
    requires
        cursor < usize::MAX,
    ensures
        r@ == "Loaded save "@ + digits((cursor + 1) as nat, 10) + " / "@
            + digits((if count > 1 { count } else { 1 }) as nat, 10),
{
    let mut s = String::from_str("Loaded save ");
    append_digits(&mut s, (cursor + 1) as u64, 10);
    s.append(" / ");
    let shown: usize = if count > 1 { count } else { 1 };
    append_digits(&mut s, shown as u64, 10);
    s
}

/// Status line after `Clear`.
pub const CLEARED_MESSAGE: &'static str = "Cleared — base world";

/// Status line when a load finds no saves.
pub const NO_SAVES_MESSAGE: &'static str = "No saves to load";

/// Status line once a render has finished: the stage label, the haunted and
/// volcanic cell counts, the painted patch count and the display blocks that
/// show a transition.
pub fn rendered_message(stage: GenStage, stats: &GridStats) -> (r: String)
    ensures
        r@ == "Rendered \u{2014} "@ + stage_label(stage) + " | H:"@ + digits(stats.haunted as nat, 10) + "/V:"@
            + digits(stats.volcanic as nat, 10) + " patches:"@ + digits(stats.patch_ids as nat, 10)
            + " transitions:"@ + digits(stats.display_transitions as nat, 10),
{
    let mut s = String::from_str("Rendered \u{2014} ");
    s.append(stage.label());
    s.append(" | H:");
    append_digits(&mut s, stats.haunted as u64, 10);
    s.append("/V:");
    append_digits(&mut s, stats.volcanic as u64, 10);
    s.append(" patches:");
    append_digits(&mut s, stats.patch_ids as u64, 10);
    s.append(" transitions:");
    append_digits(&mut s, stats.display_transitions as u64, 10);
    s
}

/// Short name of a render mode on the lab's status panel.
pub open spec fn render_mode_short(m: TerrainRenderMode) -> Seq<char> {
    match m {
        TerrainRenderMode::Display64 => "64px"@,
        TerrainRenderMode::Experimental32 => "32px exp"@,
    }
}

/// Three labelled decimal counts.
pub open spec fn count3(l1: Seq<char>, v1: nat, l2: Seq<char>, v2: nat, l3: Seq<char>, v3: nat) -> Seq<char> {
    l1 + digits(v1, 10) + l2 + digits(v2, 10) + l3 + digits(v3, 10)
}

/// The statistics lines of the status panel; `missing` counts generated
/// tiles that could not be written.
pub open spec fn stats_block(st: GridStats, missing: u64) -> Seq<char> {
    count3("\nLand:"@, st.land as nat, " Ocean:"@, st.ocean as nat, " | Beach O/M/I: "@, st.beach_outer as nat)
        + count3("/"@, st.beach_mid as nat, "/"@, st.beach_inner as nat, " | H:"@, st.haunted as nat)
        + count3(" V:"@, st.volcanic as nat, " | patches:"@, st.patch_ids as nat, " trans:"@, st.display_transitions as nat)
        + count3(" locked:"@, st.role_locked as nat, " missing:"@, missing as nat, "\nPatch min:"@, st.min_patch_size as nat)
        + count3(" median:"@, st.median_patch_size as nat, " isolated:"@, st.isolated_tiles as nat, " | holes_filled:"@,
            st.interior_holes_filled as nat)
}

/// The key legend at the foot of the status panel.
pub open spec fn panel_legend() -> Seq<char> {
    "1-7 stages | N seed | R regen | B/Shift+B mix | M render mode | J role-lock | Y stats\nG 32 grid | T 64 grid | O transition debug | P patch sizes | H help | 0 Starter Island"@
}

/// First line of the status panel: stage, seed in eight upper-case hex
/// digits and render mode.
pub open spec fn panel_head(stage: GenStage, seed: u32, mode: TerrainRenderMode) -> Seq<char> {
    stage_label(stage) + "\nSeed: "@ + padded_digits(seed as nat, 16, 8) + " | Render: "@ + render_mode_short(mode)
}

/// The Home Mix line of the status panel.
pub open spec fn panel_mix(a: Biome, b: Biome) -> Seq<char> {
    "\nHome Mix:  < "@ + biome_label(a) + " + "@ + biome_label(b) + " >   (B next / Shift+B prev)\n"@
}

/// The lab's status panel: stage, seed and render mode, the statistics when
/// shown, the Home Mix, the status line and the key legend.
pub open spec fn spec_status_panel(
    stage: GenStage,
    recipe: IslandGenRecipe,
    view: IslandGenViewFlags,
    stats: GridStats,
    missing: u64,
    status: Seq<char>,
) -> Seq<char> {
    panel_head(stage, recipe.seed, view.render_mode) + (if view.show_stats {
        stats_block(stats, missing)
    } else {
        Seq::empty()
    }) + panel_mix(recipe.primary_biome, recipe.secondary_biome) + status + "\n"@ + panel_legend()
}

fn append_count3(s: &mut String, l1: &str, v1: u64, l2: &str, v2: u64, l3: &str, v3: u64)
    ensures
        final(s)@ == old(s)@ + count3(l1@, v1 as nat, l2@, v2 as nat, l3@, v3 as nat),
{
    let ghost s0 = s@;
    s.append(l1);
    append_digits(s, v1, 10);
    s.append(l2);
    append_digits(s, v2, 10);
    s.append(l3);
    append_digits(s, v3, 10);
    assert(s@ =~= s0 + count3(l1@, v1 as nat, l2@, v2 as nat, l3@, v3 as nat));
}

fn append_stats_block(s: &mut String, st: &GridStats, missing: u64)
    ensures
        final(s)@ == old(s)@ + stats_block(*st, missing),
{
    let ghost s0 = s@;
    append_count3(s, "\nLand:", st.land as u64, " Ocean:", st.ocean as u64, " | Beach O/M/I: ", st.beach_outer as u64);
    append_count3(s, "/", st.beach_mid as u64, "/", st.beach_inner as u64, " | H:", st.haunted as u64);
    append_count3(s, " V:", st.volcanic as u64, " | patches:", st.patch_ids as u64, " trans:", st.display_transitions as u64);
    append_count3(s, " locked:", st.role_locked as u64, " missing:", missing, "\nPatch min:", st.min_patch_size as u64);
    append_count3(
        s,
        " median:",
        st.median_patch_size as u64,
        " isolated:",
        st.isolated_tiles as u64,
        " | holes_filled:",
        st.interior_holes_filled as u64,
    );
    assert(s@ =~= s0 + stats_block(*st, missing));
}

fn panel_head_text(stage: GenStage, seed: u32, mode: TerrainRenderMode) -> (r: String)
    ensures
        r@ == panel_head(stage, seed, mode),
{
    let mut s = String::from_str(stage.label());
    s.append("\nSeed: ");
    append_padded(&mut s, seed as u64, 16, 8);
    s.append(" | Render: ");
    match mode {
        TerrainRenderMode::Display64 => s.append("64px"),
        TerrainRenderMode::Experimental32 => s.append("32px exp"),
    }
    assert(s@ =~= panel_head(stage, seed, mode));
    s
}

fn append_panel_mix(s: &mut String, a: Biome, b: Biome)
    ensures
        final(s)@ == old(s)@ + panel_mix(a, b),
{
    let ghost s0 = s@;
    s.append("\nHome Mix:  < ");
    s.append(a.label());
    s.append(" + ");
    s.append(b.label());
    s.append(" >   (B next / Shift+B prev)\n");
    assert(s@ =~= s0 + panel_mix(a, b));
}

/// Text of the lab's status panel.
pub fn status_panel_text(
    stage: GenStage,
    recipe: &IslandGenRecipe,
    view: &IslandGenViewFlags,
    stats: &GridStats,
    missing: u64,
    status: &str,
) -> (r: String)
    ensures
        r@ == spec_status_panel(stage, *recipe, *view, *stats, missing, status@),
{
    let mut s = panel_head_text(stage, recipe.seed, view.render_mode);
    let ghost head = s@;
    if view.show_stats {
        append_stats_block(&mut s, stats, missing);
    }
    let ghost mid = s@;
    let (a, b) = recipe.active_pair();
    append_panel_mix(&mut s, a, b);
    let ghost mixed = s@;
    s.append(status);
    s.append("\n");
    s.append("1-7 stages | N seed | R regen | B/Shift+B mix | M render mode | J role-lock | Y stats\nG 32 grid | T 64 grid | O transition debug | P patch sizes | H help | 0 Starter Island");
    assert(s@ =~= mixed + status@ + "\n"@ + panel_legend());
    assert(s@ =~= spec_status_panel(stage, *recipe, *view, *stats, missing, status@));
    s
}

/// Display blocks whose art is prepared per frame in 64 px mode.
pub const TILES_PER_FRAME: usize = 4000;

/// Cells whose art is prepared per frame in the 32 px experiment.
pub const CELLS_PER_FRAME: usize = 6000;

/// One frame of a chunked render: from item `next` of `total`, this frame
/// covers up to `per_frame` items; returns where the next frame starts
/// (`render_after` one frame) and whether the render is finished.
pub fn render_batch(next: usize, total: usize, per_frame: usize) -> (r: (usize, bool))
    requires
        next + per_frame <= usize::MAX,
    ensures
        r.0 == (if next + per_frame < total { next + per_frame } else { total as int }),
        r.1 == (r.0 >= total),
        r.0 == render_after(next as int, total as int, per_frame as int, 1),
{
    proof {
        reveal_with_fuel(render_after, 2);
    }
    let end = if next + per_frame < total { next + per_frame } else { total };
    (end, end >= total)
}

/// Where a chunked render of `total` items stands after `k` frames of up to
/// `per_frame` items each, started at item `next`.
pub open spec fn render_after(next: int, total: int, per_frame: int, k: nat) -> int
    decreases k,
{
    if k == 0 {
        next
    } else {
        let n = render_after(next, total, per_frame, (k - 1) as nat);
        if n + per_frame < total { n + per_frame } else { total }
    }
}

/// A chunked render advances `per_frame` items a frame until it reaches the
/// end: after `k` frames from `next` it stands at
/// `min(next + k * per_frame, total)`.
pub proof fn law_render_progress(next: int, total: int, per_frame: int, k: nat)
    requires
        0 <= next <= total,
        per_frame > 0,
    ensures
        render_after(next, total, per_frame, k) == (if next + k * per_frame < total { next + k * per_frame } else { total }),
    decreases k,
{
    if k == 0 {
        assert(k * per_frame == 0) by (nonlinear_arith)
            requires
                k == 0,
        ;
    } else {
        let j = (k - 1) as nat;
        law_render_progress(next, total, per_frame, j);
        assert(render_after(next, total, per_frame, k) == (if render_after(next, total, per_frame, j) + per_frame < total {
            render_after(next, total, per_frame, j) + per_frame
        } else {
            total
        }));
        assert(k * per_frame == j * per_frame + per_frame) by (nonlinear_arith)
            requires
                k == j + 1,
        ;
        assert(per_frame <= k * per_frame) by (nonlinear_arith)
            requires
                k >= 1,
                per_frame > 0,
        ;
    }
}

/// A chunked render of `total` items from the start finishes on frame
/// `ceil(total / per_frame)` and not before.
pub proof fn law_render_finishes(total: int, per_frame: int)
    requires
        total >= 0,
        per_frame > 0,
    ensures
        ({
            let k = (total + per_frame - 1) / per_frame;
            &&& k >= 0
            &&& render_after(0, total, per_frame, k as nat) == total
            &&& (k > 0 ==> render_after(0, total, per_frame, (k - 1) as nat) < total)
        }),
{
    let k = (total + per_frame - 1) / per_frame;
    assert(k >= 0 && k * per_frame >= total && (k > 0 ==> (k - 1) * per_frame < total)) by (nonlinear_arith)
        requires
            total >= 0,
            per_frame > 0,
            k == (total + per_frame - 1) / per_frame,
    {
        assert(total + per_frame - 1 == k * per_frame + (total + per_frame - 1) % per_frame);
    }
    law_render_progress(0, total, per_frame, k as nat);
    if k > 0 {
        law_render_progress(0, total, per_frame, (k - 1) as nat);
    }
}

} // verus!

use bloodandbilgewater::island::bands::{assign_beach_roles, lock_coast_roles, BeachBand};
use bloodandbilgewater::island::controls::{
    apply_view_command, command_for_key, flush_render_dirty, home_mix_message, loaded_save_message,
    recipe_after_command, regenerated_message, regenerates, render_batch, render_mode_message, rendered_message, status_panel_text, IslandGenCommand,
    IslandGenViewFlags, RenderInvalidation, TerrainRenderMode,
};
use bloodandbilgewater::island::components::{
    cell_component_sizes, dominant_neighbor_land, dominant_neighbor_surface, enforce_min_patch_size, surface_component_sizes,
};
use bloodandbilgewater::island::art::{composite_art, CompositeArt};
use bloodandbilgewater::island::distance::compute_distance_to_water;
use bloodandbilgewater::island::surfaces::{slug_rank, surface_slug};
use bloodandbilgewater::island::transition::{
    biome_stage_view, display_block_transition, display_tile_art, dominant_display_surface, BiomeStageView, DisplayQuad,
    DisplayTileArt,
};
use bloodandbilgewater::island::grid::{cell_coords, generate_base_world, is_border_cell, neighbor4, IslandGenGrid, CELL_COUNT, GRID};
use bloodandbilgewater::island::mask::{
    flood_fill_external_ocean, generate_land_mask, remove_internal_ocean_holes, smooth_island_mask, MaskSample,
};
use bloodandbilgewater::island::recipe::{land_pairs, other_active_biome, GenStage, IslandGenRecipe, DEFAULT_SEED};
use bloodandbilgewater::island::saves::{save_file_name, IslandGenSaveFile, IslandGenSaveIndex};
use bloodandbilgewater::island::sea::flood_fill_open_water;
use bloodandbilgewater::island::stats::{compute_grid_stats, sort_sizes, summarize_sizes};
use bloodandbilgewater::island::types::{Biome, CellData, GridStats, SurfaceId, TerrainRole, TransitionMask};
use bloodandbilgewater::lab_scene::{boot_scene, lab_scene_for, lab_worlds, scene_after_hotkeys, LabScene};

fn pair_recipe(index: u8, seed: u32) -> IslandGenRecipe {
    let mut r = IslandGenRecipe::default();
    r.seed = seed;
    r.pair_index = index;
    r.sync_pair_fields();
    r
}

/// Land inside the ring `inner² < d² <= outer²` around the grid centre,
/// shallow water within four cells of it, deep ocean elsewhere.
fn ring_samples(inner: i32, outer: i32) -> Vec<MaskSample> {
    let inner2 = if inner < 0 { -1 } else { inner * inner };
    let mut v = Vec::with_capacity(CELL_COUNT);
    for i in 0..CELL_COUNT {
        let (col, row) = cell_coords(i);
        let dx = col - GRID / 2;
        let dy = row - GRID / 2;
        let d2 = dx * dx + dy * dy;
        let s = if d2 > inner2 && d2 <= outer * outer {
            MaskSample::Land
        } else if d2 <= (outer + 4) * (outer + 4) && d2 > inner2 {
            MaskSample::Shallow
        } else {
            MaskSample::Deep
        };
        v.push(s);
    }
    v
}

fn masked_grid(inner: i32, outer: i32) -> IslandGenGrid {
    let recipe = pair_recipe(0, DEFAULT_SEED);
    let mut grid = generate_base_world(&recipe);
    generate_land_mask(&mut grid, &ring_samples(inner, outer));
    grid
}

fn land_count(grid: &IslandGenGrid) -> usize {
    grid.cells.iter().filter(|c| c.role.is_land()).count()
}

#[test]
fn default_recipe_is_haunted_and_volcanic() {
    let r = IslandGenRecipe::default();
    assert_eq!(r.seed, DEFAULT_SEED);
    assert_eq!(r.active_pair(), (Biome::Haunted, Biome::Volcanic));
    assert_eq!((r.beach_min_cells, r.beach_max_cells), (8, 24));
    assert!(r.primary_west);
    assert_eq!(r.pair_index, 0);
}

#[test]
fn home_mix_cycles_through_three_pairs_and_back() {
    let mut r = IslandGenRecipe::default();
    r.cycle_pair_next();
    assert_eq!((r.pair_index, r.active_pair()), (1, (Biome::Haunted, Biome::Cliff)));
    r.cycle_pair_next();
    assert_eq!((r.pair_index, r.active_pair()), (2, (Biome::Volcanic, Biome::Cliff)));
    r.cycle_pair_next();
    assert_eq!((r.pair_index, r.active_pair()), (0, (Biome::Haunted, Biome::Volcanic)));
    r.cycle_pair_prev();
    assert_eq!(r.pair_index, 2);
    r.cycle_pair_next();
    assert_eq!(r, IslandGenRecipe::default());
}

#[test]
fn all_pairs_have_two_different_biomes() {
    let pairs = land_pairs();
    assert_eq!(pairs.len(), 3);
    for i in 0..pairs.len() as u8 {
        let r = pair_recipe(i, DEFAULT_SEED);
        let (a, b) = r.active_pair();
        assert_ne!(a, b, "pair {i} has identical biomes");
        assert_eq!(other_active_biome(&r, a), b);
        assert_eq!(other_active_biome(&r, b), a);
    }
}

#[test]
fn resync_finds_pair_in_either_order() {
    let mut r = IslandGenRecipe::default();
    r.primary_biome = Biome::Cliff;
    r.secondary_biome = Biome::Volcanic;
    r.resync_pair_index();
    assert_eq!(r.pair_index, 2);
    r.primary_biome = Biome::Cliff;
    r.secondary_biome = Biome::Cliff;
    r.resync_pair_index();
    assert_eq!(r.pair_index, 2);
}

#[test]
fn sync_past_last_pair_keeps_fields() {
    let mut r = IslandGenRecipe::default();
    r.pair_index = 7;
    r.sync_pair_fields();
    assert_eq!(r.active_pair(), (Biome::Haunted, Biome::Volcanic));
}

#[test]
fn stage_numbers_round_trip() {
    for v in 0u8..7 {
        assert_eq!(GenStage::from_u8(v).as_u8(), v);
    }
    assert_eq!(GenStage::from_u8(200), GenStage::FinalTerrain);
    assert_eq!(GenStage::BeachBand.label(), "Stage 2: Beach band");
    assert_eq!(GenStage::FinalTerrain.label(), "Stage 6: Final terrain preview");
}

#[test]
fn save_file_names_follow_the_pattern() {
    let r = pair_recipe(1, 0x00AB_CDEF);
    assert_eq!(save_file_name(&r, 42), "island_gen_seed_00ABCDEF_haunted_cliff_42.json");
    let d = IslandGenRecipe::default();
    assert_eq!(save_file_name(&d, 0), "island_gen_seed_0B1B2025_haunted_volcanic_0.json");
    let save = IslandGenSaveFile { recipe: d, stage: 3, saved_at_ms: 0 };
    assert_eq!(save.stage_enum(), GenStage::BiomeRegions);
}

#[test]
fn save_cursor_wraps_both_ways() {
    let mut idx = IslandGenSaveIndex::default();
    assert!(!idx.cycle_next());
    assert!(!idx.cycle_prev());
    idx.refresh_with(vec!["a.json".to_string(), "b.json".to_string(), "c.json".to_string()]);
    assert_eq!(idx.count(), 3);
    assert!(idx.cycle_prev());
    assert_eq!(idx.cursor, 2);
    assert!(idx.cycle_next());
    assert_eq!(idx.cursor, 0);
    idx.select_path("b.json");
    assert_eq!(idx.cursor, 1);
    idx.select_path("zzz.json");
    assert_eq!(idx.cursor, 1);
    idx.refresh_with(vec!["a.json".to_string()]);
    assert_eq!(idx.cursor, 0);
    idx.refresh_with(Vec::new());
    assert_eq!(idx.cursor, 0);
}

#[test]
fn base_world_is_all_locked_deep_ocean() {
    let grid = generate_base_world(&IslandGenRecipe::default());
    assert_eq!(grid.cells.len(), CELL_COUNT);
    assert!(grid.cells.iter().all(|c| *c == CellData::default()));
    assert_eq!(grid.interior_holes_filled, 0);
    let stats = compute_grid_stats(&grid);
    assert_eq!(stats.ocean, CELL_COUNT as u32);
    assert_eq!(stats.land, 0);
    assert_eq!(stats.role_locked, CELL_COUNT as u32);
}

#[test]
fn grid_geometry_helpers() {
    assert_eq!(IslandGenGrid::idx(0, 0), Some(0));
    assert_eq!(IslandGenGrid::idx(3, 2), Some(2 * 312 + 3));
    assert_eq!(IslandGenGrid::idx(-1, 0), None);
    assert_eq!(IslandGenGrid::idx(312, 0), None);
    assert_eq!(cell_coords(2 * 312 + 3), (3, 2));
    assert!(is_border_cell(0));
    assert!(!is_border_cell(313));
    assert_eq!(neighbor4(0, 0), None);
    assert_eq!(neighbor4(313, 1), Some(314));
}

#[test]
fn land_mask_follows_the_samples() {
    let grid = masked_grid(-1, 30);
    let mut expected = 0;
    for (i, s) in ring_samples(-1, 30).iter().enumerate() {
        match s {
            MaskSample::Land => {
                expected += 1;
                assert_eq!(grid.cells[i].role, TerrainRole::LandBlank);
                assert!(!grid.cells[i].role_locked);
            }
            MaskSample::Shallow => assert_eq!(grid.cells[i].role, TerrainRole::OceanShallow),
            MaskSample::Deep => assert_eq!(grid.cells[i], CellData::default()),
        }
    }
    assert_eq!(land_count(&grid), expected);
}

#[test]
fn lagoon_inside_a_ring_is_filled() {
    let mut grid = masked_grid(10, 30);
    let lagoon = grid.cells.iter().filter(|c| !c.role.is_land()).count()
        - flood_fill_external_ocean(&grid).iter().filter(|e| **e).count();
    assert!(lagoon > 300);
    remove_internal_ocean_holes(&mut grid);
    assert_eq!(grid.interior_holes_filled as usize, lagoon);
    let external = flood_fill_external_ocean(&grid);
    let holes = grid
        .cells
        .iter()
        .enumerate()
        .filter(|(i, cell)| !cell.role.is_land() && !external[*i])
        .count();
    assert_eq!(holes, 0);
    let (c, r) = (GRID / 2, GRID / 2);
    assert!(grid.cell(c, r).unwrap().role.is_land());
}

#[test]
fn open_water_flood_stays_outside_walls() {
    let mut water = vec![true; CELL_COUNT];
    // A closed square wall with one water cell inside.
    for col in 10..15 {
        for row in 10..15 {
            let i = (row * GRID + col) as usize;
            water[i] = !(col == 10 || col == 14 || row == 10 || row == 14);
        }
    }
    let ext = flood_fill_open_water(&water);
    assert!(ext[0]);
    assert!(!ext[(12 * GRID + 12) as usize]);
    assert!(!ext[(10 * GRID + 10) as usize]);
    assert!(ext[(20 * GRID + 20) as usize]);
}

#[test]
fn smoothing_removes_a_lone_land_speck() {
    let recipe = IslandGenRecipe::default();
    let mut grid = generate_base_world(&recipe);
    let mut samples = vec![MaskSample::Deep; CELL_COUNT];
    samples[(100 * GRID + 100) as usize] = MaskSample::Land;
    generate_land_mask(&mut grid, &samples);
    assert_eq!(land_count(&grid), 1);
    smooth_island_mask(&mut grid);
    assert_eq!(land_count(&grid), 0);
}

#[test]
fn distance_to_water_is_a_four_neighbour_walk() {
    let mut grid = masked_grid(-1, 60);
    compute_distance_to_water(&mut grid);
    let center = grid.cell(GRID / 2, GRID / 2).unwrap();
    assert_eq!(center.dist_to_water, 61);
    let edge = grid.cell(GRID / 2 + 60, GRID / 2).unwrap();
    assert_eq!(edge.dist_to_water, 1);
    let sea = grid.cell(5, 5).unwrap();
    assert_eq!(sea.dist_to_water, 0);
}

#[test]
fn beach_bands_follow_the_distance() {
    let mut grid = masked_grid(-1, 60);
    compute_distance_to_water(&mut grid);
    let band = BeachBand { width: 6, outer: 2, mid: 4 };
    assign_beach_roles(&mut grid, &vec![band; CELL_COUNT]);
    lock_coast_roles(&mut grid);
    let at = |dc: i32| grid.cell(GRID / 2 + dc, GRID / 2).unwrap().role;
    assert_eq!(at(60), TerrainRole::BeachOuter);
    assert_eq!(at(59), TerrainRole::BeachOuter);
    assert_eq!(at(58), TerrainRole::BeachMid);
    assert_eq!(at(56), TerrainRole::BeachInner);
    assert_eq!(at(54), TerrainRole::Interior);
    assert!(grid.cell(GRID / 2 + 60, GRID / 2).unwrap().role_locked);
    let stats = compute_grid_stats(&grid);
    assert!(stats.beach_outer > 0 && stats.beach_mid > 0 && stats.beach_inner > 0 && stats.interior > 0);
    assert_eq!(stats.land + stats.ocean, CELL_COUNT as u32);
}

#[test]
fn size_summary_reads_min_median_and_singles() {
    let mut v = vec![12, 1, 9, 1, 30];
    sort_sizes(&mut v);
    assert_eq!(v, vec![1, 1, 9, 12, 30]);
    assert_eq!(summarize_sizes(&v), (1, 9, 2));
    assert_eq!(summarize_sizes(&Vec::new()), (0, 0, 0));
}

#[test]
fn keys_map_to_lab_commands() {
    assert_eq!(command_for_key('1', false), Some(IslandGenCommand::SetStage(GenStage::BaseWorld)));
    assert_eq!(command_for_key('7', true), Some(IslandGenCommand::SetStage(GenStage::FinalTerrain)));
    assert_eq!(command_for_key('B', false), Some(IslandGenCommand::CyclePairNext));
    assert_eq!(command_for_key('B', true), Some(IslandGenCommand::CyclePairPrev));
    assert_eq!(command_for_key('H', false), Some(IslandGenCommand::ToggleHelp));
    assert_eq!(command_for_key('8', false), None);
    assert_eq!(command_for_key('Z', false), None);
    assert!(regenerates(IslandGenCommand::Clear));
    assert!(!regenerates(IslandGenCommand::Save));
}

#[test]
fn view_toggles_dirty_the_right_layers() {
    let mut flags = IslandGenViewFlags::default();
    let mut queue = RenderInvalidation { full_rebuild: false, grids_dirty: false, overlays_dirty: false };
    flush_render_dirty(&mut flags, &mut queue);
    assert!(queue.full_rebuild && !flags.render_dirty);
    queue.full_rebuild = false;
    apply_view_command(&mut flags, &mut queue, IslandGenCommand::ToggleCellGrid);
    assert!(flags.show_cell_grid && queue.grids_dirty && !queue.overlays_dirty);
    apply_view_command(&mut flags, &mut queue, IslandGenCommand::TogglePatchSizeDebug);
    assert!(flags.show_patch_size_debug && queue.overlays_dirty);
    apply_view_command(&mut flags, &mut queue, IslandGenCommand::ToggleRenderMode);
    assert_eq!(flags.render_mode, TerrainRenderMode::Experimental32);
    assert!(flags.render_dirty);
    apply_view_command(&mut flags, &mut queue, IslandGenCommand::ToggleHelp);
    assert!(!flags.show_help);
    flush_render_dirty(&mut flags, &mut queue);
    assert!(queue.full_rebuild);
}

#[test]
fn commands_change_recipe_and_stage() {
    let mut recipe = IslandGenRecipe::default();
    let mut stage = GenStage::FinalTerrain;
    recipe_after_command(&mut recipe, &mut stage, IslandGenCommand::NewSeed, 77);
    assert_eq!(recipe.seed, 77);
    recipe_after_command(&mut recipe, &mut stage, IslandGenCommand::CyclePairNext, 0);
    assert_eq!(recipe.active_pair(), (Biome::Haunted, Biome::Cliff));
    recipe_after_command(&mut recipe, &mut stage, IslandGenCommand::SetStage(GenStage::LandMask), 0);
    assert_eq!(stage, GenStage::LandMask);
    recipe_after_command(&mut recipe, &mut stage, IslandGenCommand::Clear, 5);
    assert_eq!((recipe.seed, stage), (DEFAULT_SEED, GenStage::BaseWorld));
    assert_eq!(recipe.pair_index, 1);
}

#[test]
fn status_lines_read_as_the_lab_shows_them() {
    assert_eq!(render_mode_message(TerrainRenderMode::Experimental32), "Render mode: Experimental32");
    assert_eq!(home_mix_message(&pair_recipe(2, 1)), "Home Mix: Volcanic + Cliff");
    assert_eq!(regenerated_message(0xAB, GenStage::LandMask), "Regenerated seed=000000AB Stage 1: Land mask");
    assert_eq!(loaded_save_message(0, 0), "Loaded save 1 / 1");
    assert_eq!(loaded_save_message(2, 5), "Loaded save 3 / 5");
}

#[test]
fn surfaces_of_a_fresh_mask_are_shallow() {
    let grid = masked_grid(-1, 20);
    let c = grid.cell(GRID / 2, GRID / 2).unwrap();
    assert_eq!(c.surface, SurfaceId::OceanShallow);
}

#[test]
fn lab_scene_boot_and_hotkeys() {
    assert_eq!(LabScene::default(), LabScene::Inactive);
    assert_eq!(boot_scene(None), LabScene::IslandGen);
    assert_eq!(boot_scene(Some(LabScene::ShallowShore)), LabScene::ShallowShore);
    assert_eq!(scene_after_hotkeys(LabScene::IslandGen, true, false, false), Some(LabScene::StarterIsland));
    assert_eq!(scene_after_hotkeys(LabScene::IslandGen, true, true, false), Some(LabScene::IslandGen));
    assert_eq!(scene_after_hotkeys(LabScene::StarterIsland, false, true, true), Some(LabScene::StarterIsland));
    assert_eq!(scene_after_hotkeys(LabScene::IslandGen, false, false, true), None);
}

fn patch_grid() -> IslandGenGrid {
    let mut grid = generate_base_world(&IslandGenRecipe::default());
    let interior = |surface: SurfaceId| CellData { role: TerrainRole::Interior, role_locked: false, surface, ..CellData::default() };
    for col in 10..13 {
        grid.cells[(10 * GRID + col) as usize] = interior(SurfaceId::HauntedMoonGrass);
    }
    grid.cells[(11 * GRID + 10) as usize] = interior(SurfaceId::VolcanicBlackSand);
    grid.cells[(11 * GRID + 9) as usize] =
        CellData { role: TerrainRole::BeachOuter, surface: SurfaceId::OceanShallow, ..CellData::default() };
    grid
}

#[test]
fn patches_are_counted_in_scan_order() {
    let grid = patch_grid();
    assert_eq!(surface_component_sizes(&grid), vec![3, 1]);
    let per_cell = cell_component_sizes(&grid);
    assert_eq!(per_cell[(10 * GRID + 11) as usize], 3);
    assert_eq!(per_cell[(11 * GRID + 10) as usize], 1);
    assert_eq!(per_cell[(11 * GRID + 9) as usize], 0);
    assert_eq!(per_cell.iter().filter(|s| **s > 0).count(), 4);
    let stats = compute_grid_stats(&grid);
    assert_eq!((stats.min_patch_size, stats.median_patch_size, stats.isolated_tiles), (1, 3, 1));
    assert_eq!(stats.interior, 4);
}

#[test]
fn small_patches_vote_on_their_border() {
    let grid = patch_grid();
    let lone = vec![(11 * GRID + 10) as usize];
    assert_eq!(
        dominant_neighbor_surface(&grid, &lone, SurfaceId::VolcanicBlackSand),
        Some(SurfaceId::HauntedMoonGrass)
    );
    assert_eq!(
        dominant_neighbor_land(&grid, &lone),
        Some((SurfaceId::OceanShallow, TerrainRole::BeachOuter))
    );
    let strip: Vec<usize> = (10..13).map(|c| (10 * GRID + c) as usize).collect();
    assert_eq!(
        dominant_neighbor_surface(&grid, &strip, SurfaceId::HauntedMoonGrass),
        Some(SurfaceId::VolcanicBlackSand)
    );
    assert_eq!(dominant_neighbor_land(&grid, &strip), None);
}

#[test]
fn merging_folds_small_patches_into_neighbours() {
    let mut grid = patch_grid();
    enforce_min_patch_size(&mut grid);
    // First pass: the strip takes the lone cell's surface, and the lone cell,
    // with no other interior neighbour, folds into the beach beside it. The
    // second pass folds the strip into that beach; the third changes nothing.
    let s = |c: i32, r: i32| grid.cells[(r * GRID + c) as usize];
    for (c, r) in [(10, 10), (11, 10), (12, 10), (10, 11)] {
        assert_eq!(s(c, r).role, TerrainRole::BeachOuter);
        assert_eq!(s(c, r).surface, SurfaceId::OceanShallow);
        assert_eq!(s(c, r).patch_id, 0);
    }
    assert_eq!(s(0, 0), CellData::default());
}

#[test]
fn biome_stage_shows_beach_then_majority() {
    let q = |role: TerrainRole, biome: Option<Biome>| DisplayQuad { surface: SurfaceId::OceanShallow, biome, role };
    let h = q(TerrainRole::Interior, Some(Biome::Haunted));
    let v = q(TerrainRole::Interior, Some(Biome::Volcanic));
    let c = q(TerrainRole::Interior, Some(Biome::Cliff));
    let sea = q(TerrainRole::OceanDeep, None);
    assert_eq!(biome_stage_view(&[h, v, v, sea]), BiomeStageView::Region(Biome::Volcanic));
    assert_eq!(biome_stage_view(&[h, v, c, sea]), BiomeStageView::Region(Biome::Haunted));
    assert_eq!(biome_stage_view(&[c, c, v, v]), BiomeStageView::Region(Biome::Volcanic));
    assert_eq!(biome_stage_view(&[sea, sea, sea, sea]), BiomeStageView::Unassigned);
    let beach = q(TerrainRole::BeachMid, Some(Biome::Haunted));
    assert_eq!(biome_stage_view(&[h, h, h, beach]), BiomeStageView::Beach);
}

#[test]
fn transition_art_is_plain_or_blended() {
    let same = composite_art(SurfaceId::HauntedMoonGrass, SurfaceId::HauntedMoonGrass, TransitionMask::Speckle, 3);
    assert!(matches!(same, CompositeArt::Plain(Some(_))));
    let sea = composite_art(SurfaceId::OceanDeep, SurfaceId::OceanDeep, TransitionMask::Speckle, 0);
    assert!(matches!(sea, CompositeArt::Plain(None)));
    match composite_art(SurfaceId::HauntedMoonGrass, SurfaceId::VolcanicBlackSand, TransitionMask::CornerNe, 7) {
        CompositeArt::Blend(p) => assert_eq!(
            p,
            format!(
                "runtime/generated/terrain_blends/v4/{}__{}__corner_ne__v07.png",
                surface_slug(SurfaceId::HauntedMoonGrass),
                surface_slug(SurfaceId::VolcanicBlackSand)
            )
        ),
        CompositeArt::Plain(_) => panic!("different surfaces composite"),
    }
    assert_eq!(surface_slug(SurfaceId::VolcanicBlackSand), "volcanic_black_sand");
}

#[test]
fn world_select_lists_the_lab_worlds() {
    let worlds = lab_worlds();
    assert_eq!(worlds, vec!["Ocean Tiles", "Shallow Shore", "Combat Sandbox", "Ship Sandbox"]);
    assert_eq!(lab_scene_for(1), Some(LabScene::ShallowShore));
    assert_eq!(lab_scene_for(3), Some(LabScene::ShipSandbox));
    assert_eq!(lab_scene_for(4), None);
}

#[test]
fn display_tile_art_follows_land_transition_and_dominant_surface() {
    let recipe = IslandGenRecipe::default();
    let mut grid = generate_base_world(&recipe);
    // A land square, haunted grass on the left half and black sand on the right.
    for row in 100..140 {
        for col in 100..140 {
            let surface = if col < 120 { SurfaceId::HauntedMoonGrass } else { SurfaceId::VolcanicBlackSand };
            let biome = if col < 120 { Biome::Haunted } else { Biome::Volcanic };
            grid.cells[(row * GRID + col) as usize] = CellData {
                role: TerrainRole::Interior,
                role_locked: false,
                biome: Some(biome),
                surface,
                ..CellData::default()
            };
        }
    }
    assert_eq!(display_tile_art(&grid, &recipe, 3, 3), DisplayTileArt::Water);
    assert_eq!(display_tile_art(&grid, &recipe, 55, 60), DisplayTileArt::Surface(SurfaceId::HauntedMoonGrass));
    for mc in 48..72 {
        for mr in 48..72 {
            let art = display_tile_art(&grid, &recipe, mc, mr);
            if (mc * 2 + 1 < 100 || mc * 2 >= 140) || (mr * 2 + 1 < 100 || mr * 2 >= 140) {
                continue;
            }
            match display_block_transition(&grid, &recipe, mc, mr) {
                Some(t) => assert_eq!(art, DisplayTileArt::Transition(t)),
                None => assert_eq!(art, DisplayTileArt::Surface(dominant_display_surface(&grid, mc, mr))),
            }
        }
    }
}

#[test]
fn rendered_status_counts_biomes_patches_and_transitions() {
    let stats = GridStats { haunted: 12, volcanic: 7, patch_ids: 3, display_transitions: 40, ..GridStats::default() };
    assert_eq!(
        rendered_message(GenStage::FinalTerrain, &stats),
        format!("Rendered \u{2014} {} | H:12/V:7 patches:3 transitions:40", GenStage::FinalTerrain.label())
    );
}

#[test]
fn status_panel_lists_stage_seed_stats_mix_and_keys() {
    let mut recipe = IslandGenRecipe::default();
    recipe.seed = 0x1F;
    let mut view = IslandGenViewFlags::default();
    let stats = GridStats {
        land: 10,
        ocean: 20,
        beach_outer: 1,
        beach_mid: 2,
        beach_inner: 3,
        haunted: 4,
        volcanic: 5,
        patch_ids: 6,
        display_transitions: 7,
        role_locked: 8,
        min_patch_size: 9,
        median_patch_size: 11,
        isolated_tiles: 12,
        interior_holes_filled: 13,
        ..GridStats::default()
    };
    let (a, b) = recipe.active_pair();
    let legend = "1-7 stages | N seed | R regen | B/Shift+B mix | M render mode | J role-lock | Y stats\n\
G 32 grid | T 64 grid | O transition debug | P patch sizes | H help | 0 Starter Island";
    view.show_stats = true;
    let shown = status_panel_text(GenStage::FinalTerrain, &recipe, &view, &stats, 14, "Ready");
    assert_eq!(
        shown,
        format!(
            "{}\nSeed: 0000001F | Render: 64px\nLand:10 Ocean:20 | Beach O/M/I: 1/2/3 | H:4 V:5 | patches:6 trans:7 locked:8 missing:14\nPatch min:9 median:11 isolated:12 | holes_filled:13\nHome Mix:  < {} + {} >   (B next / Shift+B prev)\nReady\n{}",
            GenStage::FinalTerrain.label(),
            a.label(),
            b.label(),
            legend
        )
    );
    view.show_stats = false;
    view.render_mode = TerrainRenderMode::Experimental32;
    let hidden = status_panel_text(GenStage::LandMask, &recipe, &view, &stats, 0, "x");
    assert!(hidden.starts_with(&format!("{}\nSeed: 0000001F | Render: 32px exp\nHome Mix:", GenStage::LandMask.label())));
    assert!(hidden.ends_with(&format!("x\n{legend}")));
}

#[test]
fn merging_leaves_a_small_patch_ringed_by_water() {
    let recipe = IslandGenRecipe::default();
    let mut grid = generate_base_world(&recipe);
    let islet = CellData {
        role: TerrainRole::Interior,
        role_locked: false,
        biome: Some(Biome::Haunted),
        surface: SurfaceId::HauntedMoonGrass,
        patch_id: 4,
        ..CellData::default()
    };
    for (c, r) in [(50, 50), (51, 50), (50, 51)] {
        grid.cells[(r * GRID + c) as usize] = islet;
    }
    let before = grid.cells.clone();
    enforce_min_patch_size(&mut grid);
    // Nothing borders the three cells but water: the first pass settles.
    assert!(grid.cells == before);
}

#[test]
fn render_batches_cover_the_grid_in_chunks() {
    assert_eq!(render_batch(0, 24336, 4000), (4000, false));
    assert_eq!(render_batch(24000, 24336, 4000), (24336, true));
    assert_eq!(render_batch(92000, 97344, 6000), (97344, true));
    assert_eq!(render_batch(0, 0, 6000), (0, true));
}

#[test]
fn a_chain_of_small_patches_merges_through() {
    // Six one-cell patches alternate two surfaces along a row and end at a
    // long strip: each pass folds one more of them into the strip, so the
    // chain needs six changing passes before one settles.
    let mut grid = generate_base_world(&IslandGenRecipe::default());
    let interior = |surface: SurfaceId| CellData { role: TerrainRole::Interior, role_locked: false, surface, ..CellData::default() };
    for col in 10..16 {
        let surface = if col % 2 == 0 { SurfaceId::HauntedMoonGrass } else { SurfaceId::HauntedMoonGrassDark };
        grid.cells[(50 * GRID + col) as usize] = interior(surface);
    }
    for col in 16..31 {
        grid.cells[(50 * GRID + col) as usize] = interior(SurfaceId::VolcanicAshSoil);
    }
    enforce_min_patch_size(&mut grid);
    for col in 10..31 {
        let c = grid.cells[(50 * GRID + col) as usize];
        assert_eq!(c.surface, SurfaceId::VolcanicAshSoil);
        assert_eq!(c.role, TerrainRole::Interior);
    }
    let once = grid.cells.clone();
    enforce_min_patch_size(&mut grid);
    assert!(grid.cells == once);
}

#[test]
fn chunked_renders_finish_on_schedule() {
    let run = |total: usize, per: usize| {
        let mut next = 0;
        let mut frames = 0;
        loop {
            let (n, done) = render_batch(next, total, per);
            assert!(n - next <= per);
            next = n;
            frames += 1;
            if done {
                break;
            }
        }
        (next, frames)
    };
    assert_eq!(run(24336, 4000), (24336, 7));
    assert_eq!(run(97344, 6000), (97344, 17));
}

#[test]
fn a_settled_merge_is_a_fixpoint() {
    let mut grid = patch_grid();
    enforce_min_patch_size(&mut grid);
    let once = grid.cells.clone();
    enforce_min_patch_size(&mut grid);
    assert!(grid.cells == once);
}

#[test]
fn slug_ranks_follow_slug_order() {
    let some = [
        SurfaceId::OceanDeep,
        SurfaceId::OceanShallow,
        SurfaceId::VolcanicAshSoil,
        SurfaceId::VolcanicAshSoilCracked,
        SurfaceId::HauntedMoonGrass,
        SurfaceId::HauntedMoonGrassDark,
        SurfaceId::VillageOldPathDirt,
        SurfaceId::CliffOldPath,
        SurfaceId::HauntedOldPath,
    ];
    for a in some {
        for b in some {
            assert_eq!(slug_rank(a) < slug_rank(b), surface_slug(a) < surface_slug(b));
        }
    }
}

#[test]
fn surface_slugs_are_distinct() {
    let some = [
        SurfaceId::OceanDeep,
        SurfaceId::OceanShallow,
        SurfaceId::VolcanicAshSoil,
        SurfaceId::VolcanicAshSoilCracked,
        SurfaceId::HauntedMoonGrass,
        SurfaceId::HauntedMoonGrassDark,
        SurfaceId::HauntedMoonGrassPale,
        SurfaceId::VillageOldPathDirt,
        SurfaceId::CliffOldPath,
        SurfaceId::HauntedOldPath,
    ];
    for (i, a) in some.iter().enumerate() {
        for b in some.iter().skip(i + 1) {
            assert_ne!(surface_slug(*a), surface_slug(*b));
        }
    }
}

use bloodandbilgewater::lab_scene::{lab_scene_for, lab_worlds, LabScene};
use bloodandbilgewater::menus::{
    creation_outcome, title_menu_buttons, title_menu_outcome, world_select_outcome, CreateAction, GameState, MenuAction,
    MenuOutcome, WorldAction,
};
use bloodandbilgewater::aseprite::{AsepriteFrame, FrameRect, ParsedAsepriteSheet};
use bloodandbilgewater::roles::CharacterRole;
use bloodandbilgewater::roster::{
    class_choices, confirm_creation, create_error_hint, name_plate_text, same_name, CharacterRoster, CreateError,
    CreationName, SavedCharacter,
};
use bloodandbilgewater::starter::{
    assign_wfc_tiles, cell_tile, classify_module, cliff_mask_from_edges, cliff_tile_for, neighbor_mask, tile_path, Biome, CellData,
    HeatClass, TerrainKind, TileModule, TileSample,
};
use bloodandbilgewater::text::{append_digits, append_padded, str_eq};
use bloodandbilgewater::trees::{
    cell_hash, plan_tree_slot, tree_cell_eligible, tree_texture_path, FruitKind, GrowthState, TreeSex, TreeSpecies,
    SALT_TREE,
};

#[test]
fn names_compare_trimmed_and_case_blind() {
    assert!(same_name("  Anne Bonny ", "anne bonny"));
    assert!(!same_name("Anne", "Annie"));
    assert!(same_name("", "   "));
}

#[test]
fn creation_refuses_empty_taken_and_full() {
    let mut roster = CharacterRoster::default();
    assert_eq!(confirm_creation(&mut roster, "   ", 0), Err(CreateError::EmptyName));
    assert_eq!(confirm_creation(&mut roster, "  Mary Read ", 2), Ok(()));
    assert_eq!(roster.characters.len(), 1);
    assert_eq!(roster.characters[0].name, "Mary Read");
    assert_eq!(roster.characters[0].role, CharacterRole::Navigator);
    assert_eq!(confirm_creation(&mut roster, "MARY READ", 0), Err(CreateError::NameTaken));
    for i in 1..16 {
        roster.characters.push(SavedCharacter { name: format!("crew {i}"), role: CharacterRole::Helmsman });
    }
    assert!(!roster.has_room());
    assert_eq!(confirm_creation(&mut roster, "Calico Jack", 0), Err(CreateError::RosterFull));
    assert_eq!(roster.characters.len(), 16);
    assert_eq!(create_error_hint(CreateError::RosterFull), "Roster is full");
    assert_eq!(create_error_hint(CreateError::EmptyName), "Enter a name first");
}

#[test]
fn seven_classes_are_offered() {
    let choices = class_choices();
    assert_eq!(choices.len(), 7);
    assert_eq!(choices[0].name, "Swordsman");
    assert_eq!(choices[6].role, CharacterRole::HistorianScholar);
}

#[test]
fn typed_names_stop_at_sixteen_bytes() {
    let mut n = CreationName::new();
    n.type_space();
    assert!(n.chars.is_empty());
    for c in "Blackbeard".chars() {
        n.type_char(c, c.is_alphanumeric());
    }
    n.type_char('!', false);
    n.type_space();
    n.type_char('-', false);
    assert_eq!(n.chars.iter().collect::<String>(), "Blackbeard -");
    for _ in 0..10 {
        n.type_char('x', true);
    }
    assert_eq!(n.byte_len, 16);
    assert_eq!(n.chars.len(), 16);
    n.type_char('é', true);
    assert_eq!(n.chars.len(), 16);
    n.backspace();
    n.type_char('é', true);
    assert_eq!(n.byte_len, 17);
    assert_eq!(name_plate_text(""), "Enter name...");
    assert_eq!(name_plate_text("Ann"), "Ann");
}

#[test]
fn tree_slots_follow_the_cell_hash() {
    let mut found = 0;
    for col in 0..300 {
        for row in 0..40 {
            let roll = cell_hash(col, row, SALT_TREE) % 100;
            let plan = plan_tree_slot(col, row, 0, Biome::Volcanic);
            assert_eq!(plan.is_some(), roll < 4);
            if let Some(p) = plan {
                found += 1;
                assert_eq!(p.species, TreeSpecies::AshenLaurel);
                if p.growth == GrowthState::Mature && p.sex == TreeSex::Female {
                    assert!((3..=6).contains(&p.fruit_count));
                    assert_eq!(p.fruit, Some(FruitKind::Brineberry));
                } else {
                    assert_eq!((p.fruit_count, p.fruit), (0, None));
                }
            }
        }
    }
    assert!(found > 100);
    assert!(tree_cell_eligible(true, 0, 1));
    assert!(!tree_cell_eligible(true, 4, 0));
    assert!(!tree_cell_eligible(true, 0, 2));
    assert_eq!(tree_texture_path(TreeSpecies::MoonWillow, GrowthState::Stump), "runtime/props/flora/trees/moon-willow/stump.png");
}

#[test]
fn cell_hash_matches_its_formula() {
    let mut h = 3u32.wrapping_mul(73_856_093) ^ 4u32.wrapping_mul(19_349_663) ^ 9;
    h ^= h >> 13;
    h = h.wrapping_mul(1_274_126_177);
    h ^= h >> 16;
    assert_eq!(cell_hash(3, 4, 9), h);
}

#[test]
fn aseprite_frames_are_ordered_left_to_right() {
    let frames = vec![
        AsepriteFrame { x: 64, y: 0, w: 32, h: 32, duration: 90 },
        AsepriteFrame { x: 0, y: 0, w: 32, h: 32, duration: 100 },
        AsepriteFrame { x: 32, y: 0, w: 32, h: 32, duration: 110 },
    ];
    let sheet = ParsedAsepriteSheet::from_frames(96, 32, frames);
    assert_eq!(sheet.frame_count(), 3);
    assert_eq!(sheet.frame_durations_ms, vec![100, 110, 90]);
    assert_eq!(sheet.frame_rects[2], FrameRect { min_x: 64, min_y: 0, max_x: 96, max_y: 32 });
    assert_eq!((sheet.sheet_w, sheet.sheet_h), (96, 32));
}

#[test]
fn aseprite_frames_of_one_column_keep_their_export_order() {
    // A vertical strip: every frame at x = 0, exported bottom row first.
    let frames = vec![
        AsepriteFrame { x: 32, y: 0, w: 32, h: 32, duration: 50 },
        AsepriteFrame { x: 0, y: 64, w: 32, h: 32, duration: 30 },
        AsepriteFrame { x: 0, y: 0, w: 32, h: 32, duration: 10 },
        AsepriteFrame { x: 0, y: 32, w: 32, h: 32, duration: 20 },
    ];
    let sheet = ParsedAsepriteSheet::from_frames(64, 96, frames);
    assert_eq!(sheet.frame_durations_ms, vec![30, 10, 20, 50]);
    assert_eq!(sheet.frame_rects[0].min_y, 64);
    assert_eq!(sheet.frame_rects[3], FrameRect { min_x: 32, min_y: 0, max_x: 64, max_y: 32 });
}

#[test]
fn digits_are_written_in_any_base() {
    let mut s = String::from("seed=");
    append_padded(&mut s, 0xBEEF, 16, 8);
    assert_eq!(s, "seed=0000BEEF");
    let mut t = String::new();
    append_digits(&mut t, 1234, 10);
    assert_eq!(t, "1234");
    let mut u = String::new();
    append_padded(&mut u, 123456, 10, 3);
    assert_eq!(u, "123456");
    assert!(str_eq("abc", "abc"));
    assert!(!str_eq("abc", "abd"));
}

#[test]
fn cliff_masks_and_modules() {
    assert_eq!(cliff_mask_from_edges(true, false, true, false), 5);
    assert_eq!(cliff_mask_from_edges(true, true, true, true), 15);
    assert_eq!(classify_module(15, false), TileModule::Interior);
    assert_eq!(classify_module(7, false), TileModule::Coast);
    assert_eq!(classify_module(3, false), TileModule::CoastCorner);
    assert_eq!(classify_module(5, false), TileModule::CoastBridge);
    assert_eq!(classify_module(1, false), TileModule::CoastCorner);
    assert_eq!(classify_module(15, true), TileModule::BiomeBlend);
    assert_eq!(cliff_tile_for(None), "");
    assert_eq!(
        cliff_tile_for(Some(Biome::Volcanic)),
        "runtime/tilesets/volcanic/volcanic_basalt_cracked_base_v01.png"
    );
    assert_eq!(tile_path(Biome::Haunted, "haunted_x"), "runtime/tilesets/haunted/haunted_x.png");
}

#[test]
fn typed_text_keeps_letters_digits_apostrophes_and_hyphens() {
    let mut n = CreationName::new();
    assert!(n.type_text("O'Ma-l3y!?"));
    assert_eq!(n.chars.iter().collect::<String>(), "O'Ma-l3y");
    assert!(!n.type_text("!? "));
    assert!(n.type_text("Ñu"));
    assert_eq!(n.byte_len, 11);
}

#[test]
fn title_menu_buttons_lead_where_their_captions_say() {
    let buttons = title_menu_buttons();
    let captions: Vec<&str> = buttons.iter().map(|(_, c)| *c).collect();
    assert_eq!(captions, vec!["PLAY", "CHARACTER SELECT", "SHIPYARD TAVERN", "QUIT"]);
    assert_eq!(title_menu_outcome(MenuAction::Play), MenuOutcome::Enter(GameState::WorldSelect));
    assert_eq!(title_menu_outcome(MenuAction::CharacterSelect), MenuOutcome::Enter(GameState::CharacterSelect));
    assert_eq!(title_menu_outcome(MenuAction::ShipyardTavern), MenuOutcome::Stay);
    assert_eq!(title_menu_outcome(MenuAction::Quit), MenuOutcome::Exit);
    assert_eq!(buttons[3].0, MenuAction::Quit);
}

#[test]
fn world_select_enters_lab_worlds_by_index() {
    assert_eq!(world_select_outcome(WorldAction::Back), MenuOutcome::Enter(GameState::MainMenu));
    assert_eq!(world_select_outcome(WorldAction::LoadLabWorld(1)), MenuOutcome::EnterLab(LabScene::ShallowShore));
    assert_eq!(world_select_outcome(WorldAction::LoadLabWorld(3)), MenuOutcome::EnterLab(LabScene::ShipSandbox));
    assert_eq!(world_select_outcome(WorldAction::LoadLabWorld(4)), MenuOutcome::Stay);
    assert_eq!(world_select_outcome(WorldAction::CreateNewWorld), MenuOutcome::Stay);
    // Every listed world launches a scene of its own.
    let worlds = lab_worlds();
    let scenes: Vec<LabScene> = (0..worlds.len()).map(|i| lab_scene_for(i).expect("listed")).collect();
    for i in 0..scenes.len() {
        for j in (i + 1)..scenes.len() {
            assert_ne!(scenes[i], scenes[j]);
        }
    }
    assert_eq!(lab_scene_for(worlds.len()), None);
}

#[test]
fn creation_returns_to_character_select() {
    assert_eq!(creation_outcome(CreateAction::Back, false), MenuOutcome::Enter(GameState::CharacterSelect));
    assert_eq!(creation_outcome(CreateAction::SelectClass(2), false), MenuOutcome::Stay);
    assert_eq!(creation_outcome(CreateAction::Confirm, true), MenuOutcome::Enter(GameState::CharacterSelect));
    assert_eq!(creation_outcome(CreateAction::Confirm, false), MenuOutcome::Stay);
}

fn land_sheet(terrain: TerrainKind, biome: Biome) -> Vec<CellData> {
    (0..97344)
        .map(|_| CellData { terrain, biome: Some(biome), tile_path: String::new(), cliff_mask: 0, tree_count: 0 })
        .collect()
}

#[test]
fn cell_tile_follows_the_noise_pick_and_the_neighbour_draws() {
    let cells = land_sheet(TerrainKind::Haunted, Biome::Haunted);
    let i = 100 * 312 + 100;
    let s = TileSample { family_index: 0, blend_high: false, noise_pick: 4, heat: HeatClass::Mild };
    let module = classify_module(neighbor_mask(&cells, 100, 100), false);
    let pool = module.variant_pool(Biome::Haunted, 0);
    let path = |v: usize| tile_path(Biome::Haunted, pool[v]);
    assert_eq!(cell_tile(&cells, i, s, Some(2), Some(0), false, false), (1, path(1)));
    assert_eq!(cell_tile(&cells, i, s, Some(2), Some(0), true, false), (2, path(2)));
    assert_eq!(cell_tile(&cells, i, s, Some(2), Some(0), true, true), (0, path(0)));
    assert_eq!(cell_tile(&cells, i, s, None, Some(0), true, true), (0, path(0)));
    assert_eq!(cell_tile(&cells, i, s, None, None, true, true), (1, path(1)));
}

#[test]
fn cell_tile_shows_heat_on_unclifed_volcanic_interior() {
    let cells = land_sheet(TerrainKind::Volcanic, Biome::Volcanic);
    let i = 50 * 312 + 60;
    assert_eq!(classify_module(neighbor_mask(&cells, 60, 50), false), TileModule::Interior);
    let hot = TileSample { family_index: 0, blend_high: false, noise_pick: 2, heat: HeatClass::LavaCrack };
    assert_eq!(
        cell_tile(&cells, i, hot, Some(0), None, true, false),
        (0, tile_path(Biome::Volcanic, "volcanic_lava_crack_base_v01"))
    );
    let mild = TileSample { heat: HeatClass::Mild, ..hot };
    let pool = TileModule::Interior.variant_pool(Biome::Volcanic, 0);
    assert_eq!(cell_tile(&cells, i, mild, Some(0), None, false, false), (2, tile_path(Biome::Volcanic, pool[2])));
}

fn wfc_input() -> (Vec<CellData>, Vec<TileSample>) {
    let mut cells = Vec::new();
    let mut samples = Vec::new();
    for i in 0..97344usize {
        let (col, row) = (i % 312, i / 312);
        let land = (100..130).contains(&col) && (100..130).contains(&row);
        cells.push(CellData {
            terrain: if land { TerrainKind::Haunted } else { TerrainKind::Ocean },
            biome: if land { Some(Biome::Haunted) } else { None },
            tile_path: String::from("sea"),
            cliff_mask: 0,
            tree_count: 0,
        });
        samples.push(TileSample { family_index: 0, blend_high: false, noise_pick: (i % 3) as u8, heat: HeatClass::Mild });
    }
    (cells, samples)
}

#[test]
fn wfc_tiling_is_deterministic_per_seed() {
    let (mut a, samples) = wfc_input();
    let (mut b, _) = wfc_input();
    assign_wfc_tiles(&mut a, &samples, 7);
    assign_wfc_tiles(&mut b, &samples, 7);
    for i in 0..97344usize {
        assert_eq!(a[i].tile_path, b[i].tile_path);
        let (col, row) = (i % 312, i / 312);
        if !((100..130).contains(&col) && (100..130).contains(&row)) {
            assert_eq!(a[i].tile_path, "sea");
        } else {
            assert_ne!(a[i].tile_path, "sea");
        }
    }
}

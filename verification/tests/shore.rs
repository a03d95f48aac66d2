use bloodandbilgewater::ocean_tiles::{broken_edge_band, gradient_band};
use bloodandbilgewater::shore_distance::{
    depth_band, nearest_shore, open_water_tile, shore_distance_field, DepthBand, UNREACHED, WINDOW_CELLS, WINDOW_COLS,
    WINDOW_ROWS,
};
use bloodandbilgewater::shore::{
    corner_code, dual_grid_code, gallery_entries, hash2, mask_water, palette, tile_art_for_code, tile_path_for_code, TileArt,
    BASE_WATER, EDGE_E, EDGE_N, EDGE_S, EDGE_W, INNER_NE, INNER_NW, INNER_SE, INNER_SW, OUTER_NE,
    OUTER_NW, OUTER_SE, OUTER_SW,
};

#[test]
fn corner_code_bit_layout() {
    assert_eq!(corner_code(false, false, false, false), 0b0000);
    assert_eq!(corner_code(true, false, false, false), 0b0001); // NW
    assert_eq!(corner_code(false, true, false, false), 0b0010); // NE
    assert_eq!(corner_code(false, false, true, false), 0b0100); // SE
    assert_eq!(corner_code(false, false, false, true), 0b1000); // SW
    assert_eq!(corner_code(true, true, true, true), 0b1111);
}

#[test]
fn every_supported_combination_has_a_tile() {
    // 13 of the 16 cases are single tiles; 0b0000 (sand) and the two
    // diagonals (0b0101, 0b1010) have no single tile.
    let with_tile = (0u8..16).filter(|c| tile_path_for_code(*c).is_some()).count();
    assert_eq!(with_tile, 13);
    assert!(tile_path_for_code(0b0000).is_none());
    assert!(tile_path_for_code(0b0101).is_none());
    assert!(tile_path_for_code(0b1010).is_none());
}

#[test]
fn diagonals_are_composited_from_two_inner_corners() {
    // Every one of the 16 codes draws something except all-sand.
    for code in 0u8..16 {
        match tile_art_for_code(code) {
            TileArt::Empty => assert_eq!(code, 0b0000),
            TileArt::Single(_) => assert!(code != 0b0000 && code != 0b0101 && code != 0b1010),
            TileArt::Diagonal(a, b) => {
                assert!(code == 0b0101 || code == 0b1010);
                assert_ne!(a, b);
            }
        }
    }
}

#[test]
fn dual_grid_samples_the_four_corners_at_a_coast() {
    // World: row 0 sand, row 1 water (a simple horizontal coastline).
    let water = |_x: i32, y: i32| y >= 1;
    let code = dual_grid_code(&water, 0, 1);
    assert_eq!(code, 0b1100);
    assert_eq!(tile_path_for_code(code), Some(EDGE_N));

    assert_eq!(tile_path_for_code(dual_grid_code(&water, 0, 2)), Some(BASE_WATER));
}

#[test]
fn single_water_cell_makes_inner_corners() {
    // One water cell at (5, 5) surrounded by sand: each of its four display
    // corners should be a single-water-corner (inner) tile.
    let water = |x: i32, y: i32| x == 5 && y == 5;
    assert_eq!(tile_path_for_code(dual_grid_code(&water, 5, 5)), Some(INNER_SE));
    assert_eq!(tile_path_for_code(dual_grid_code(&water, 6, 5)), Some(INNER_SW));
    assert_eq!(tile_path_for_code(dual_grid_code(&water, 5, 6)), Some(INNER_NE));
    assert_eq!(tile_path_for_code(dual_grid_code(&water, 6, 6)), Some(INNER_NW));
}

#[test]
fn each_single_tile_names_its_sand_side() {
    assert_eq!(tile_path_for_code(0b1111), Some(BASE_WATER));
    assert_eq!(tile_path_for_code(0b0011), Some(EDGE_S));
    assert_eq!(tile_path_for_code(0b1001), Some(EDGE_E));
    assert_eq!(tile_path_for_code(0b0110), Some(EDGE_W));
    assert_eq!(tile_path_for_code(0b1110), Some(OUTER_NW));
    assert_eq!(tile_path_for_code(0b1101), Some(OUTER_NE));
    assert_eq!(tile_path_for_code(0b1011), Some(OUTER_SE));
    assert_eq!(tile_path_for_code(0b0111), Some(OUTER_SW));
    assert_eq!(tile_path_for_code(0b0001), Some(INNER_NW));
    assert_eq!(tile_path_for_code(0b0010), Some(INNER_NE));
    assert_eq!(tile_path_for_code(16), None);
}

#[test]
fn diagonal_codes_pair_their_inner_corners() {
    assert_eq!(tile_art_for_code(0b0101), TileArt::Diagonal(INNER_NW, INNER_SE));
    assert_eq!(tile_art_for_code(0b1010), TileArt::Diagonal(INNER_NE, INNER_SW));
    assert_eq!(tile_art_for_code(0b1100), TileArt::Single(EDGE_N));
}

#[test]
fn vertical_coast_reads_as_east_and_west_edges() {
    // Water to the east of column 3.
    let water = |x: i32, _y: i32| x >= 3;
    assert_eq!(tile_path_for_code(dual_grid_code(&water, 3, 0)), Some(EDGE_W));
    let land_east = |x: i32, _y: i32| x < 3;
    assert_eq!(tile_path_for_code(dual_grid_code(&land_east, 3, 0)), Some(EDGE_E));
}

#[test]
fn palette_lists_each_code_once() {
    let p = palette();
    assert_eq!(p.len(), 16);
    let mut seen = [false; 16];
    for (code, _) in &p {
        assert!(!seen[*code as usize]);
        seen[*code as usize] = true;
    }
    assert_eq!(p[0], (15, "Full Water"));
}

#[test]
fn hash2_matches_its_formula() {
    assert_eq!(hash2(0, 0), 0);
    let mut h = 1u32.wrapping_mul(374_761_393).wrapping_add(2u32.wrapping_mul(668_265_263));
    h ^= h >> 13;
    h = h.wrapping_mul(1_274_126_177);
    h ^= h >> 16;
    assert_eq!(hash2(1, 2), h);
    assert_ne!(hash2(1, 2), hash2(2, 1));
}

#[test]
fn gallery_lists_every_source_tile() {
    let g = gallery_entries();
    assert_eq!(g.len(), 32);
    assert_eq!(g[0], ("Water 01".to_string(), BASE_WATER.to_string()));
    assert_eq!(g[11].0, "Water 12");
    assert_eq!(g[11].1, "tilesets/ocean/shallow/shallow_loop_base_12.png");
    assert_eq!(g[12], ("Edge N".to_string(), EDGE_N.to_string()));
    assert_eq!(g[23], ("Inner SW".to_string(), INNER_SW.to_string()));
    assert_eq!(g[25].0, "Cove In R");
    assert_eq!(g[31], ("Accent 04".to_string(), "tilesets/ocean/shallow/shallow_water_accent_04.png".to_string()));
}

fn one_sand_cell(c: i32, r: i32) -> Vec<bool> {
    let mut water = vec![true; WINDOW_CELLS];
    water[((r + 2) * 45 + (c + 2)) as usize] = false;
    water
}

#[test]
fn shore_distance_is_manhattan_around_a_single_sand_cell() {
    let water = one_sand_cell(0, 0);
    let d = shore_distance_field(&water);
    assert_eq!(d.len(), WINDOW_CELLS);
    for idx in 0..WINDOW_CELLS {
        let c = (idx % WINDOW_COLS) as i32 - 2;
        let r = (idx / WINDOW_COLS) as i32 - 2;
        assert_eq!(d[idx] as i32, c.abs() + r.abs());
    }
    assert_eq!(WINDOW_ROWS * WINDOW_COLS, WINDOW_CELLS);
}

#[test]
fn shore_distance_leaves_unreached_water_at_the_cap() {
    let water = vec![true; WINDOW_CELLS];
    let d = shore_distance_field(&water);
    assert!(d.iter().all(|&v| v == UNREACHED));
    let sand = vec![false; WINDOW_CELLS];
    assert!(shore_distance_field(&sand).iter().all(|&v| v == 0));
}

#[test]
fn shore_distance_goes_around_a_sand_wall() {
    // A sand column at c = 10 from the top edge down to r = 20; the sand
    // source is the wall itself, so water right of it is 1 away.
    let mut water = vec![true; WINDOW_CELLS];
    for r in -2..=20 {
        water[((r + 2) * 45 + 12) as usize] = false;
    }
    let d = shore_distance_field(&water);
    assert_eq!(d[((5 + 2) * 45 + 13) as usize], 1);
    assert_eq!(d[((5 + 2) * 45 + 16) as usize], 4);
    // Below the wall's end the nearest sand is its last cell.
    assert_eq!(d[((23 + 2) * 45 + 12) as usize], 3);
}

#[test]
fn nearest_shore_takes_the_least_of_four_cells() {
    let water = one_sand_cell(5, 5);
    let d = shore_distance_field(&water);
    // Tile (5, 5) touches cell (5, 5) itself.
    assert_eq!(nearest_shore(&d, 5, 5), 0);
    assert_eq!(nearest_shore(&d, 6, 6), 0);
    // Tile (8, 5) touches cells 7..=8 on rows 4..=5; nearest is (7, 5) at 2.
    assert_eq!(nearest_shore(&d, 8, 5), 2);
    let all_water = vec![true; WINDOW_CELLS];
    let far = shore_distance_field(&all_water);
    assert_eq!(nearest_shore(&far, 3, 3), 99);
}

#[test]
fn depth_bands_split_at_one_and_three() {
    assert_eq!(depth_band(0), DepthBand::Shallow);
    assert_eq!(depth_band(1), DepthBand::Shallow);
    assert_eq!(depth_band(2), DepthBand::Mid);
    assert_eq!(depth_band(3), DepthBand::Mid);
    assert_eq!(depth_band(4), DepthBand::Deep);
    assert_eq!(depth_band(99), DepthBand::Deep);
}

#[test]
fn open_water_tile_uses_band_and_position_hash() {
    let water = one_sand_cell(5, 5);
    let d = shore_distance_field(&water);
    let t = open_water_tile(&d, 9, 5);
    assert_eq!(t.band, DepthBand::Mid);
    let seed = hash2(9, 5);
    assert_eq!(t.shallow_variant, seed % 12);
    assert_eq!(t.quarter as u32, seed % 4);
    assert_eq!(open_water_tile(&d, 20, 20).band, DepthBand::Deep);
    assert_eq!(open_water_tile(&d, 5, 6).band, DepthBand::Shallow);
}

#[test]
fn mask_cells_are_water_only_on_hash_inside_the_mask() {
    let mask: [&str; 5] = ["......", "......", "######", "######", "######"];
    assert!(!mask_water(&mask, 0, 0));
    assert!(!mask_water(&mask, 5, 1));
    assert!(mask_water(&mask, 0, 2));
    assert!(mask_water(&mask, 5, 4));
    // Outside the mask is sand.
    assert!(!mask_water(&mask, -1, 3));
    assert!(!mask_water(&mask, 6, 3));
    assert!(!mask_water(&mask, 2, 5));
    assert!(!mask_water(&mask, 2, -1));
    // A straight coast makes a north edge along its waterline.
    let water = |c: i32, r: i32| mask_water(&mask, c, r);
    assert_eq!(dual_grid_code(&water, 3, 2), corner_code(false, false, true, true));
    assert_eq!(dual_grid_code(&water, 3, 4), 0b1111);
}

#[test]
fn mask_width_follows_the_first_row() {
    let ragged: [&str; 2] = ["##", "####"];
    assert!(mask_water(&ragged, 1, 1));
    assert!(!mask_water(&ragged, 2, 1));
    let short: [&str; 2] = ["####", "#"];
    assert!(!mask_water(&short, 2, 1));
}

#[test]
fn gradient_zone_runs_deep_mid_shallow() {
    assert_eq!(gradient_band(0), DepthBand::Deep);
    assert_eq!(gradient_band(5), DepthBand::Deep);
    assert_eq!(gradient_band(6), DepthBand::Mid);
    assert_eq!(gradient_band(10), DepthBand::Mid);
    assert_eq!(gradient_band(11), DepthBand::Shallow);
    assert_eq!(gradient_band(16), DepthBand::Shallow);
}

#[test]
fn broken_edge_limits_wobble_per_cell() {
    // (0, 0): both wobbles are -2, so the deep limit is row 1.
    assert_eq!(broken_edge_band(0, 0), DepthBand::Deep);
    // (0, 2): deep wobble (62 % 5) - 2 = 0 -> limit 3; row 2 is deep.
    assert_eq!(broken_edge_band(0, 2), DepthBand::Deep);
    // (1, 4): deep wobble (17 + 124) % 5 - 2 = -1 -> limit 2; mid wobble
    // (11 + 28) % 5 - 2 = 2 -> limit 8; row 4 is mid.
    assert_eq!(broken_edge_band(1, 4), DepthBand::Mid);
    // (2, 8): mid wobble (22 + 56) % 5 - 2 = 1 -> limit 7; row 8 is shallow.
    assert_eq!(broken_edge_band(2, 8), DepthBand::Shallow);
    for x in 0..17 {
        assert_eq!(broken_edge_band(x, 0), DepthBand::Deep);
        assert_eq!(broken_edge_band(x, 9), DepthBand::Shallow);
    }
}

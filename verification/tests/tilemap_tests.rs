use rusty_poke::geometry::Vec2;
use rusty_poke::tilemap::{hide_map, parse_map, show_map, tile_for_glyph};

fn rows(lines: &[&str]) -> Vec<Vec<char>> {
    lines.iter().map(|l| l.chars().collect()).collect()
}

#[test]
fn glyphs_pick_sprites_and_markers() {
    let wall = tile_for_glyph('#', 1, 1);
    assert_eq!(wall.sprite_index, 6);
    assert!(wall.collider);
    assert!(!wall.encounter_spawn);

    let rock = tile_for_glyph('%', 1, 1);
    assert_eq!(rock.sprite_index, 8);
    assert!(rock.collider);

    let grass = tile_for_glyph('g', 1, 1);
    assert_eq!(grass.sprite_index, 7);
    assert!(!grass.collider);

    let flowers = tile_for_glyph(',', 1, 1);
    assert_eq!(flowers.sprite_index, 9);

    let tall_grass = tile_for_glyph('~', 1, 1);
    assert_eq!(tall_grass.sprite_index, 10);
    assert!(!tall_grass.collider);
    assert!(tall_grass.encounter_spawn);

    let unknown = tile_for_glyph('?', 1, 1);
    assert_eq!(unknown.sprite_index, 3);
    assert!(!unknown.collider);
    assert!(!unknown.encounter_spawn);
}

#[test]
fn tiles_sit_on_the_grid() {
    // The cell one column in and one row down sits at the origin; a tile
    // is 800 units wide.
    assert_eq!(tile_for_glyph('g', 1, 1).position, Vec2 { x: 0, y: 0 });
    assert_eq!(tile_for_glyph('g', 0, 0).position, Vec2 { x: -800, y: 800 });
    assert_eq!(tile_for_glyph('g', 3, 2).position, Vec2 { x: 1600, y: -800 });
}

#[test]
fn parse_map_reads_row_by_row() {
    let map = parse_map(&rows(&["#g", ",~"]));
    assert!(map.visible);
    assert_eq!(map.tiles.len(), 4);
    assert_eq!(map.tiles[0].sprite_index, 6);
    assert_eq!(map.tiles[1].sprite_index, 7);
    assert_eq!(map.tiles[2].sprite_index, 9);
    assert_eq!(map.tiles[3].sprite_index, 10);
    assert_eq!(map.tiles[0].position, Vec2 { x: -800, y: 800 });
    assert_eq!(map.tiles[3].position, Vec2 { x: 0, y: 0 });
}

#[test]
fn parse_map_accepts_ragged_and_empty_grids() {
    let map = parse_map(&rows(&[]));
    assert_eq!(map.tiles.len(), 0);

    let map = parse_map(&rows(&["###", "#", ""]));
    assert_eq!(map.tiles.len(), 4);
}

#[test]
fn colliders_and_encounter_zones_are_collected() {
    let map = parse_map(&rows(&["#g~", "%,~"]));
    let colliders = map.colliders();
    assert_eq!(colliders.len(), 2);
    assert_eq!(colliders[0].position, Vec2 { x: -800, y: 800 });
    assert_eq!(colliders[1].position, Vec2 { x: -800, y: 0 });

    let zones = map.encounter_spawns();
    assert_eq!(zones.len(), 2);
    assert_eq!(zones[0].position, Vec2 { x: 800, y: 800 });
    assert_eq!(zones[1].position, Vec2 { x: 800, y: 0 });
}

#[test]
fn a_map_without_colliders_is_a_normal_empty_case() {
    let map = parse_map(&rows(&["g,~"]));
    assert_eq!(map.colliders().len(), 0);
}

#[test]
fn hiding_and_showing_keep_the_tiles() {
    let mut map = parse_map(&rows(&["#g"]));
    assert!(map.visible);
    hide_map(&mut map);
    assert!(!map.visible);
    assert_eq!(map.tiles.len(), 2);
    show_map(&mut map);
    assert!(map.visible);
}

use tile_rpg::npc::Role;
use tile_rpg::tilemap::{create_simple, tile_kind, Tile, TileKind};

#[test]
fn characters_of_the_map() {
    assert_eq!(tile_kind('#'), TileKind::Wall);
    assert_eq!(tile_kind('@'), TileKind::Healer);
    assert_eq!(tile_kind('~'), TileKind::Grass);
    assert_eq!(tile_kind('.'), TileKind::Floor);
    assert_eq!(tile_kind(' '), TileKind::Floor);
    assert_eq!(tile_kind('\u{2588}'), TileKind::Floor);
}

#[test]
fn what_stands_on_a_tile() {
    assert!(TileKind::Wall.is_collider());
    assert!(TileKind::Healer.is_collider());
    assert!(!TileKind::Grass.is_collider());
    assert!(!TileKind::Floor.is_collider());

    assert!(TileKind::Grass.spawns_encounters());
    assert!(!TileKind::Wall.spawns_encounters());
    assert!(!TileKind::Healer.spawns_encounters());
    assert!(!TileKind::Floor.spawns_encounters());

    assert_eq!(TileKind::Healer.role(), Some(Role::Healer));
    assert_eq!(TileKind::Wall.role(), None);
    assert_eq!(TileKind::Grass.role(), None);
    assert_eq!(TileKind::Floor.role(), None);
}

#[test]
fn colours_of_the_tiles() {
    assert_eq!(TileKind::Wall.tint(), (7, 7, 7));
    assert_eq!(TileKind::Healer.tint(), (5, 5, 2));
    assert_eq!(TileKind::Grass.tint(), (2, 9, 2));
    assert_eq!(TileKind::Floor.tint(), (9, 9, 9));
}

#[test]
fn a_map_is_read_row_by_row() {
    let rows = vec![Some("#@".to_string()), Some("~ .".to_string())];
    assert_eq!(
        create_simple(&rows),
        vec![
            Tile { glyph: 35, kind: TileKind::Wall, x: 0, y: 0 },
            Tile { glyph: 64, kind: TileKind::Healer, x: 1, y: 0 },
            Tile { glyph: 126, kind: TileKind::Grass, x: 0, y: 1 },
            Tile { glyph: 32, kind: TileKind::Floor, x: 1, y: 1 },
            Tile { glyph: 46, kind: TileKind::Floor, x: 2, y: 1 },
        ]
    );
}

#[test]
fn a_row_that_cannot_be_read_leaves_a_gap() {
    let rows = vec![Some("#".to_string()), None, Some(String::new()), Some("~".to_string())];
    assert_eq!(
        create_simple(&rows),
        vec![
            Tile { glyph: 35, kind: TileKind::Wall, x: 0, y: 0 },
            Tile { glyph: 126, kind: TileKind::Grass, x: 0, y: 3 },
        ]
    );
}

#[test]
fn an_empty_map_has_no_tiles() {
    assert_eq!(create_simple(&Vec::new()), Vec::new());
    assert_eq!(create_simple(&vec![None, None]), Vec::new());
}

#[test]
fn columns_count_characters_not_bytes() {
    let rows = vec![Some("\u{e9}#\u{2588}~".to_string())];
    assert_eq!(
        create_simple(&rows),
        vec![
            Tile { glyph: 0xe9, kind: TileKind::Floor, x: 0, y: 0 },
            Tile { glyph: 35, kind: TileKind::Wall, x: 1, y: 0 },
            Tile { glyph: 0x2588, kind: TileKind::Floor, x: 2, y: 0 },
            Tile { glyph: 126, kind: TileKind::Grass, x: 3, y: 0 },
        ]
    );
}

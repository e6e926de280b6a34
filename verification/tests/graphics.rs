use tile_rpg::combat::EnemyType;
use tile_rpg::graphics::{
    update_player, CharacterSheet, Direction, FrameAnimation, PlayerDirection, FRAMES,
    SHEET_COLUMNS,
};

#[test]
fn the_character_sheet_has_a_row_for_each_direction() {
    assert_eq!(SHEET_COLUMNS, 12);
    assert_eq!(FRAMES, 3);
    let sheet = CharacterSheet::load();
    assert_eq!(sheet.get_player_frames(&Direction::Down), &[6, 7, 8]);
    assert_eq!(sheet.get_player_frames(&Direction::Left), &[18, 19, 20]);
    assert_eq!(sheet.get_player_frames(&Direction::Right), &[30, 31, 32]);
    assert_eq!(sheet.get_player_frames(&Direction::Up), &[42, 43, 44]);
}

#[test]
fn the_enemies_share_the_fifth_row() {
    let sheet = CharacterSheet::load();
    assert_eq!(sheet.get_enemy_frames(&EnemyType::Bat), &[51, 52, 53]);
    assert_eq!(sheet.get_enemy_frames(&EnemyType::Spectre), &[54, 55, 56]);
}

#[test]
fn an_animation_loops_over_its_frames() {
    let mut animation = FrameAnimation::new(&[51, 52, 53]);
    assert_eq!(animation.frame(), 51);
    animation.tick();
    assert_eq!(animation.frame(), 52);
    animation.tick();
    assert_eq!(animation.frame(), 53);
    animation.tick();
    assert_eq!(animation.frame(), 51);
}

#[test]
fn an_animation_steps_when_its_timer_runs_out() {
    let mut animation = FrameAnimation::new(&[6, 7, 8]);
    assert_eq!(animation.animate(false), None);
    assert_eq!(animation.frame(), 6);
    assert_eq!(animation.animate(true), Some(7));
    assert_eq!(animation.animate(true), Some(8));
    assert_eq!(animation.animate(false), None);
    assert_eq!(animation.frame(), 8);
    assert_eq!(animation.animate(true), Some(6));
}

#[test]
fn new_frames_keep_the_step() {
    let mut animation = FrameAnimation::new(&[6, 7, 8]);
    animation.tick();
    animation.tick();
    animation.set_frames(&[42, 43, 44]);
    assert_eq!(animation.frame(), 44);
    animation.tick();
    assert_eq!(animation.frame(), 42);
}

#[test]
fn the_hero_is_drawn_the_way_the_hero_faces() {
    let sheet = CharacterSheet::load();
    let mut animation = FrameAnimation::new(sheet.get_player_frames(&Direction::Down));
    animation.tick();
    update_player(&PlayerDirection(Direction::Left), &mut animation, &sheet);
    assert_eq!(animation.frame(), 19);
    update_player(&PlayerDirection(Direction::Up), &mut animation, &sheet);
    assert_eq!(animation.frame(), 43);
}

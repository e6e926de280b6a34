use bevy::input::keyboard::KeyCode;
use bevy::input::Input;
use tile_rpg::combat::Stats;
use tile_rpg::graphics::{Direction, PlayerDirection};
use tile_rpg::player::{
    encounter_check, movement, Axis, LevelUpResult, Motion, Player, WalkKeys, LEVEL_EXPERIENCE,
};
use tile_rpg::GameState;

#[test]
fn the_hero_begins_active_and_without_experience() {
    assert_eq!(Player::new(), Player { active: true, experience: 0 });
    assert_eq!(LEVEL_EXPERIENCE, 50);
}

#[test]
fn experience_below_the_price_of_a_level_is_kept() {
    let mut player = Player::new();
    let mut stats = Stats::player();
    assert!(player.can_give_exp(49, &stats));
    assert_eq!(player.give_exp(49, &mut stats), LevelUpResult::NoChange);
    assert_eq!(player, Player { active: true, experience: 49 });
    assert_eq!(stats, Stats::player());
}

#[test]
fn fifty_experience_buy_a_level() {
    let mut player = Player { active: false, experience: 49 };
    let mut stats = Stats { health: 4, max_health: 10, attack: 2, defense: 1 };
    assert_eq!(player.give_exp(1, &mut stats), LevelUpResult::LevelUp);
    assert_eq!(player, Player { active: false, experience: 0 });
    assert_eq!(stats, Stats { health: 6, max_health: 12, attack: 3, defense: 2 });
}

#[test]
fn one_gift_buys_one_level() {
    let mut player = Player::new();
    let mut stats = Stats::player();
    assert_eq!(player.give_exp(120, &mut stats), LevelUpResult::LevelUp);
    assert_eq!(player.experience, 70);
    assert_eq!(stats, Stats { health: 12, max_health: 12, attack: 3, defense: 2 });
    assert_eq!(player.give_exp(0, &mut stats), LevelUpResult::LevelUp);
    assert_eq!(player.experience, 20);
    assert_eq!(stats, Stats { health: 14, max_health: 14, attack: 4, defense: 3 });
}

#[test]
fn can_give_exp_says_when_the_numbers_fit() {
    let stats = Stats::player();
    let rich = Player { active: true, experience: usize::MAX };
    assert!(!rich.can_give_exp(1, &stats));
    assert!(rich.can_give_exp(0, &stats));

    let strong = Stats { health: 1, max_health: 1, attack: isize::MAX, defense: 1 };
    let player = Player { active: true, experience: 40 };
    assert!(player.can_give_exp(9, &strong));
    assert!(!player.can_give_exp(10, &strong));

    let hale = Stats { health: isize::MAX - 1, max_health: isize::MAX - 2, attack: 1, defense: 1 };
    assert!(!player.can_give_exp(10, &hale));
    let tough = Stats { health: 1, max_health: 1, attack: 1, defense: isize::MAX };
    assert!(!player.can_give_exp(10, &tough));
    let tall = Stats { health: 1, max_health: isize::MAX - 1, attack: 1, defense: 1 };
    assert!(!player.can_give_exp(10, &tall));
}

#[test]
fn coming_back_to_the_overworld_frees_the_hero() {
    let mut player = Player { active: false, experience: 12 };
    player.show();
    assert_eq!(player, Player { active: true, experience: 12 });
}

#[test]
fn a_step_turns_the_hero() {
    let player = Player::new();
    let mut direction = PlayerDirection(Direction::Down);
    assert!(movement(&player, &mut direction, Axis::Vertical, Motion::Forward, false));
    assert_eq!(direction, PlayerDirection(Direction::Up));
    assert!(movement(&player, &mut direction, Axis::Horizontal, Motion::Backward, false));
    assert_eq!(direction, PlayerDirection(Direction::Left));
    assert!(movement(&player, &mut direction, Axis::Horizontal, Motion::Forward, false));
    assert_eq!(direction, PlayerDirection(Direction::Right));
    assert!(movement(&player, &mut direction, Axis::Vertical, Motion::Backward, false));
    assert_eq!(direction, PlayerDirection(Direction::Down));
}

#[test]
fn a_wall_stops_the_step_and_the_turn() {
    let player = Player::new();
    let mut direction = PlayerDirection(Direction::Down);
    assert!(!movement(&player, &mut direction, Axis::Vertical, Motion::Forward, true));
    assert_eq!(direction, PlayerDirection(Direction::Down));
    assert!(!movement(&player, &mut direction, Axis::Horizontal, Motion::Still, true));
    assert_eq!(direction, PlayerDirection(Direction::Down));
}

#[test]
fn standing_still_keeps_the_facing() {
    let player = Player::new();
    let mut direction = PlayerDirection(Direction::Left);
    assert!(movement(&player, &mut direction, Axis::Vertical, Motion::Still, false));
    assert!(movement(&player, &mut direction, Axis::Horizontal, Motion::Still, false));
    assert_eq!(direction, PlayerDirection(Direction::Left));
}

#[test]
fn a_hero_who_is_not_active_stays_put() {
    let player = Player { active: false, experience: 0 };
    let mut direction = PlayerDirection(Direction::Right);
    assert!(!movement(&player, &mut direction, Axis::Vertical, Motion::Forward, false));
    assert_eq!(direction, PlayerDirection(Direction::Right));
}

#[test]
fn an_enemy_shows_up_when_the_timer_runs_out_in_the_grass() {
    let mut player = Player { active: true, experience: 3 };
    assert_eq!(encounter_check(&mut player, true, false), None);
    assert_eq!(encounter_check(&mut player, false, true), None);
    assert_eq!(encounter_check(&mut player, false, false), None);
    assert_eq!(player, Player { active: true, experience: 3 });
    assert_eq!(encounter_check(&mut player, true, true), Some(GameState::Combat));
    assert_eq!(player, Player { active: false, experience: 3 });
}

#[test]
fn the_hero_walks_on_w_a_s_and_d() {
    let none = WalkKeys { up: false, down: false, left: false, right: false };
    let mut keyboard = Input::default();
    assert_eq!(WalkKeys::read(&keyboard), none);
    keyboard.press(KeyCode::W);
    assert_eq!(WalkKeys::read(&keyboard), WalkKeys { up: true, ..none });
    keyboard.press(KeyCode::D);
    assert_eq!(WalkKeys::read(&keyboard), WalkKeys { up: true, right: true, ..none });
    keyboard.release(KeyCode::W);
    keyboard.press(KeyCode::S);
    keyboard.press(KeyCode::A);
    assert_eq!(WalkKeys::read(&keyboard), WalkKeys { up: false, down: true, left: true, right: true });
}

#[test]
fn the_hero_walks_while_the_keys_are_held() {
    let mut keyboard = Input::default();
    keyboard.press(KeyCode::S);
    keyboard.press(KeyCode::Space);
    keyboard.clear();
    assert_eq!(
        WalkKeys::read(&keyboard),
        WalkKeys { up: false, down: true, left: false, right: false }
    );
}

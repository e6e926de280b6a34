use tile_rpg::audio::{load, Track, VOLUME_TENTHS};
use tile_rpg::combat::Stats;
use tile_rpg::fadeout::{FadeFrame, Progress, Ramp, ScreenFade};
use bevy::input::keyboard::KeyCode;
use bevy::input::Input;
use tile_rpg::npc::{dismiss, end_talk, speech, talk, GREETING};
use tile_rpg::player::Player;
use tile_rpg::start_menu::{start_button, ButtonResponse, Interaction};
use tile_rpg::GameState;

#[test]
fn the_game_opens_on_the_start_menu() {
    assert_eq!(GameState::default(), GameState::StartMenu);
}

#[test]
fn a_fade_changes_the_screen_once_past_its_middle() {
    let mut fade = ScreenFade::create(GameState::Combat);
    assert_eq!(fade, ScreenFade { sent: false, next_state: GameState::Combat });

    assert_eq!(
        fade.run(Progress::BeforeHalf, false),
        FadeFrame { ramp: Ramp::Rising, enter: None, despawn: false }
    );
    assert!(!fade.sent);
    assert_eq!(
        fade.run(Progress::AtHalf, false),
        FadeFrame { ramp: Ramp::Falling, enter: None, despawn: false }
    );
    assert!(!fade.sent);
    assert_eq!(
        fade.run(Progress::PastHalf, false),
        FadeFrame { ramp: Ramp::Falling, enter: Some(GameState::Combat), despawn: false }
    );
    assert!(fade.sent);
    assert_eq!(
        fade.run(Progress::PastHalf, false),
        FadeFrame { ramp: Ramp::Falling, enter: None, despawn: false }
    );
    assert_eq!(
        fade.run(Progress::PastHalf, true),
        FadeFrame { ramp: Ramp::Falling, enter: None, despawn: true }
    );
    assert_eq!(fade, ScreenFade { sent: true, next_state: GameState::Combat });
}

#[test]
fn a_fade_that_ends_in_one_frame_still_changes_the_screen() {
    let mut fade = ScreenFade::create(GameState::Overworld);
    assert_eq!(
        fade.run(Progress::PastHalf, true),
        FadeFrame { ramp: Ramp::Falling, enter: Some(GameState::Overworld), despawn: true }
    );
}

#[test]
fn talking_heals_the_hero() {
    let mut player = Player { active: true, experience: 8 };
    let mut stats = Stats { health: 2, max_health: 10, attack: 2, defense: 1 };
    assert_eq!(talk(&mut player, &mut stats, true, 1), 1);
    assert_eq!(player, Player { active: false, experience: 8 });
    assert_eq!(stats, Stats { health: 10, max_health: 10, attack: 2, defense: 1 });
}

#[test]
fn everybody_in_reach_answers() {
    let mut player = Player::new();
    let mut stats = Stats::player();
    assert_eq!(talk(&mut player, &mut stats, true, 3), 3);
    assert!(!player.active);
}

#[test]
fn nobody_answers_without_the_key_or_out_of_reach() {
    let mut player = Player::new();
    let mut stats = Stats { health: 2, max_health: 10, attack: 2, defense: 1 };
    assert_eq!(talk(&mut player, &mut stats, false, 2), 0);
    assert_eq!(talk(&mut player, &mut stats, true, 0), 0);
    assert!(player.active);
    assert_eq!(stats.health, 2);

    let mut busy = Player { active: false, experience: 0 };
    assert_eq!(talk(&mut busy, &mut stats, true, 2), 0);
    assert!(!busy.active);
    assert_eq!(stats.health, 2);
}

#[test]
fn the_key_ends_a_conversation() {
    assert_eq!(GREETING, "It's me, Dylan!");
    let mut player = Player { active: false, experience: 5 };
    assert!(!end_talk(&mut player, false));
    assert!(!player.active);
    assert!(end_talk(&mut player, true));
    assert_eq!(player, Player { active: true, experience: 5 });
}

fn talk_key_down() -> Input<KeyCode> {
    let mut keyboard = Input::default();
    keyboard.press(KeyCode::Space);
    keyboard.press(KeyCode::W);
    keyboard
}

#[test]
fn space_starts_a_conversation_and_is_forgotten() {
    let mut player = Player::new();
    let mut stats = Stats { health: 2, max_health: 10, attack: 2, defense: 1 };
    let mut keyboard = talk_key_down();
    assert_eq!(speech(&mut player, &mut stats, &mut keyboard, 2), 2);
    assert!(!player.active);
    assert_eq!(stats.health, 10);
    assert!(!keyboard.just_pressed(KeyCode::Space));
    assert!(!keyboard.just_pressed(KeyCode::W));
    assert!(keyboard.pressed(KeyCode::Space));
    assert!(keyboard.pressed(KeyCode::W));

    assert!(!dismiss(&mut player, &mut keyboard));
    assert!(!player.active);
}

#[test]
fn a_press_that_starts_nothing_is_kept() {
    let mut player = Player::new();
    let mut stats = Stats { health: 2, max_health: 10, attack: 2, defense: 1 };
    let mut keyboard = talk_key_down();
    assert_eq!(speech(&mut player, &mut stats, &mut keyboard, 0), 0);
    assert!(player.active);
    assert_eq!(stats.health, 2);
    assert!(keyboard.just_pressed(KeyCode::Space));

    let mut other = Input::default();
    other.press(KeyCode::Return);
    assert_eq!(speech(&mut player, &mut stats, &mut other, 3), 0);
    assert!(player.active);
    assert!(other.just_pressed(KeyCode::Return));
}

#[test]
fn space_ends_a_conversation_and_is_forgotten() {
    let mut player = Player { active: false, experience: 5 };
    let mut idle = Input::default();
    idle.press(KeyCode::D);
    assert!(!dismiss(&mut player, &mut idle));
    assert!(!player.active);
    assert!(idle.just_pressed(KeyCode::D));

    let mut keyboard = talk_key_down();
    assert!(dismiss(&mut player, &mut keyboard));
    assert_eq!(player, Player { active: true, experience: 5 });
    assert!(!keyboard.just_pressed(KeyCode::Space));
    assert!(keyboard.pressed(KeyCode::Space));
}

#[test]
fn the_start_button_starts_the_game() {
    assert_eq!(
        start_button(Interaction::Pressed),
        ButtonResponse { pressed: true, deactivate: true, fade_to: Some(GameState::Overworld) }
    );
    let plain = ButtonResponse { pressed: false, deactivate: false, fade_to: None };
    assert_eq!(start_button(Interaction::Hovered), plain);
    assert_eq!(start_button(Interaction::Idle), plain);
}

#[test]
fn sounds_and_their_files() {
    assert_eq!(VOLUME_TENTHS, 6);
    assert_eq!(Track::OverworldMusic.asset(), "bip-bop.ogg");
    assert_eq!(Track::CombatMusic.asset(), "ganxta.ogg");
    assert_eq!(Track::HitSfx.asset(), "hit.wav");
    assert_eq!(Track::RewardSfx.asset(), "reward.wav");
    assert!(Track::OverworldMusic.loops());
    assert!(Track::CombatMusic.loops());
    assert!(!Track::HitSfx.loops());
    assert!(!Track::RewardSfx.loops());
}

#[test]
fn a_sound_is_loaded_once() {
    assert!(load(0));
    assert!(!load(1));
}

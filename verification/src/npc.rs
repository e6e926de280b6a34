//! The people of the overworld and what talking to them does.

use vstd::prelude::*;

use crate::combat::Stats;
use crate::keys::{clear, just_pressed, keys_just_pressed, keys_pressed, Key};
use crate::player::Player;
use bevy::input::keyboard::KeyCode;
use bevy::input::Input;

verus! {

/// What a character of the overworld does for the hero.
#[derive(Debug, Clone, Copy, PartialEq, Eq, Structural)]
pub enum Role {
    Healer,
}

/// What everybody on the overworld says.
pub const GREETING: &'static str = "It's me, Dylan!";

/// Whether a press of the talk key starts a conversation: the hero must be
/// free to act and somebody must stand within reach.
pub open spec fn spec_talks(player: Player, talk_pressed: bool, npcs_in_reach: int) -> bool {
    player.active && talk_pressed && npcs_in_reach > 0
}

/// Talks to the people around the hero on a press of `Space`, the talk key.
/// `npcs_in_reach` is the number of them the engine found within a tile and
/// a half of the hero. Where a conversation starts, it goes as `talk` says,
/// and the keyboard forgets the press, so that it does not end the
/// conversation in the frame that started it.
pub fn speech(
    player: &mut Player,
    stats: &mut Stats,
    keyboard: &mut Input<KeyCode>,
    npcs_in_reach: usize,
) -> (boxes: usize)
    ensures
        final(player).experience == old(player).experience,
        final(stats).max_health == old(stats).max_health,
        final(stats).attack == old(stats).attack,
        final(stats).defense == old(stats).defense,
        spec_talks(
            *old(player),
            keys_just_pressed(*old(keyboard)).contains(Key::Space),
            npcs_in_reach as int,
        ) ==> {
            &&& boxes == npcs_in_reach
            &&& !final(player).active
            &&& final(stats).health == old(stats).max_health
            &&& keys_just_pressed(*final(keyboard)) =~= Set::empty()
            &&& keys_pressed(*final(keyboard)) == keys_pressed(*old(keyboard))
        },
        !spec_talks(
            *old(player),
            keys_just_pressed(*old(keyboard)).contains(Key::Space),
            npcs_in_reach as int,
        ) ==> {
            &&& boxes == 0
            &&& final(player).active == old(player).active
            &&& final(stats).health == old(stats).health
            &&& *final(keyboard) == *old(keyboard)
        },
{
    let talk_pressed = just_pressed(keyboard, Key::Space);
    let boxes = talk(player, stats, talk_pressed, npcs_in_reach);
    if boxes > 0 {
        clear(keyboard);
    }
    boxes
}

/// Starts a conversation where the talk key has gone down, the hero is free
/// to act and somebody stands within reach: the hero stops answering the
/// keys and is healed in full. The result is the number of speech boxes to
/// open, one for each of the people within reach.
pub fn talk(player: &mut Player, stats: &mut Stats, talk_pressed: bool, npcs_in_reach: usize) -> (boxes:
    usize)
    ensures
        final(player).experience == old(player).experience,
        final(stats).max_health == old(stats).max_health,
        final(stats).attack == old(stats).attack,
        final(stats).defense == old(stats).defense,
        spec_talks(*old(player), talk_pressed, npcs_in_reach as int) ==> {
            &&& boxes == npcs_in_reach
            &&& !final(player).active
            &&& final(stats).health == old(stats).max_health
        },
        !spec_talks(*old(player), talk_pressed, npcs_in_reach as int) ==> {
            &&& boxes == 0
            &&& final(player).active == old(player).active
            &&& final(stats).health == old(stats).health
        },
{
    if !player.active {
        return 0;
    }
    if talk_pressed && npcs_in_reach > 0 {
        player.active = false;
        stats.health = stats.max_health;
        npcs_in_reach
    } else {
        0
    }
}

/// Ends a conversation on a press of `Space`, the talk key: it ends as
/// `end_talk` says, and the keyboard forgets the press. The result says
/// whether the speech boxes close.
pub fn dismiss(player: &mut Player, keyboard: &mut Input<KeyCode>) -> (closes: bool)
    ensures
        closes == keys_just_pressed(*old(keyboard)).contains(Key::Space),
        final(player).experience == old(player).experience,
        final(player).active == (closes || old(player).active),
        closes ==> keys_just_pressed(*final(keyboard)) =~= Set::empty() && keys_pressed(
            *final(keyboard),
        ) == keys_pressed(*old(keyboard)),
        !closes ==> *final(keyboard) == *old(keyboard),
{
    let closes = end_talk(player, just_pressed(keyboard, Key::Space));
    if closes {
        clear(keyboard);
    }
    closes
}

/// Ends a conversation where the talk key has gone down: the hero answers
/// the keys again. The result says whether the speech boxes close.
pub fn end_talk(player: &mut Player, talk_pressed: bool) -> (closes: bool)
    ensures
        closes == talk_pressed,
        final(player).experience == old(player).experience,
        final(player).active == (talk_pressed || old(player).active),
{
    if talk_pressed {
        player.active = true;
    }
    talk_pressed
}

} // verus!

//! The hero on the overworld: experience and levels, the way the hero faces
//! while walking, and the encounters that wait in the tall grass.

use vstd::prelude::*;

use crate::combat::Stats;
use crate::graphics::{Direction, PlayerDirection};
use crate::keys::{keys_pressed, pressed, Key};
use crate::GameState;
use bevy::input::keyboard::KeyCode;
use bevy::input::Input;

verus! {

/// Experience that buys a level.
pub const LEVEL_EXPERIENCE: usize = 50;

/// The hero.
#[derive(Debug, Clone, Copy, PartialEq, Eq, Structural)]
pub struct Player {
    /// Whether the hero answers the keys: not while talking, fighting or
    /// fading out.
    pub active: bool,
    pub experience: usize,
}

/// Whether a gain of experience bought a level.
#[derive(Debug, Clone, Copy, PartialEq, Eq, Structural)]
pub enum LevelUpResult {
    NoChange,
    LevelUp,
}

/// The statistics a level raises `stats` to: two more health, now and at
/// most, and one more attack and defence.
pub open spec fn spec_level_up(stats: Stats) -> Stats {
    Stats {
        health: (stats.health + 2) as isize,
        max_health: (stats.max_health + 2) as isize,
        attack: (stats.attack + 1) as isize,
        defense: (stats.defense + 1) as isize,
    }
}

/// Whether a level can be added to `stats` without leaving the range of its
/// numbers.
pub open spec fn spec_can_level_up(stats: Stats) -> bool {
    &&& stats.health + 2 <= isize::MAX
    &&& stats.max_health + 2 <= isize::MAX
    &&& stats.attack + 1 <= isize::MAX
    &&& stats.defense + 1 <= isize::MAX
}

impl Player {
    /// The hero as the game begins: free to act, and without experience.
    pub fn new() -> (player: Player)
        ensures
            player == (Player { active: true, experience: 0 }),
    {
        Player { active: true, experience: 0 }
    }

    /// Brings the hero back onto the overworld, free to act.
    pub fn show(&mut self)
        ensures
            final(self).active,
            final(self).experience == old(self).experience,
    {
        self.active = true;
    }

    /// Whether the hero, given `experience` more, has enough for a level.
    pub open spec fn spec_levels_up(self, experience: int) -> bool {
        self.experience + experience >= LEVEL_EXPERIENCE
    }

    /// Whether `give_exp` can be called with these arguments: the experience
    /// can be counted, and the level it may buy can be added to `stats`.
    pub open spec fn spec_can_give_exp(self, experience: int, stats: Stats) -> bool {
        &&& self.experience + experience <= usize::MAX
        &&& self.spec_levels_up(experience) ==> spec_can_level_up(stats)
    }

    /// Whether `give_exp` can be called with these arguments.
    pub fn can_give_exp(&self, experience: usize, stats: &Stats) -> (ok: bool)
        ensures
            ok == self.spec_can_give_exp(experience as int, *stats),
    {
        if experience > usize::MAX - self.experience {
            return false;
        }
        if self.experience + experience >= LEVEL_EXPERIENCE {
            stats.health <= isize::MAX - 2 && stats.max_health <= isize::MAX - 2 && stats.attack
                <= isize::MAX - 1 && stats.defense <= isize::MAX - 1
        } else {
            true
        }
    }

    /// Gives the hero `experience`. Where that brings the hero to the price
    /// of a level, the price is paid and `stats` rise by one level; a single
    /// gift buys a single level, however large it is.
    pub fn give_exp(&mut self, experience: usize, stats: &mut Stats) -> (result: LevelUpResult)
        requires
            old(self).spec_can_give_exp(experience as int, *old(stats)),
        ensures
            final(self).active == old(self).active,
            old(self).spec_levels_up(experience as int) ==> {
                &&& result == LevelUpResult::LevelUp
                &&& final(self).experience == old(self).experience + experience - LEVEL_EXPERIENCE
                &&& *final(stats) == spec_level_up(*old(stats))
            },
            !old(self).spec_levels_up(experience as int) ==> {
                &&& result == LevelUpResult::NoChange
                &&& final(self).experience == old(self).experience + experience
                &&& *final(stats) == *old(stats)
            },
    {
        self.experience += experience;
        if self.experience >= LEVEL_EXPERIENCE {
            stats.health += 2;
            stats.max_health += 2;
            stats.attack += 1;
            stats.defense += 1;
            self.experience -= LEVEL_EXPERIENCE;

            LevelUpResult::LevelUp
        } else {
            LevelUpResult::NoChange
        }
    }
}

/// A hero short of a level who is given no more than the price of one stays
/// short of the next: experience is always counted towards the next level.
pub proof fn lemma_experience_stays_below_level(player: Player, experience: int)
    requires
        player.experience < LEVEL_EXPERIENCE,
        0 <= experience <= LEVEL_EXPERIENCE,
    ensures
        player.spec_levels_up(experience) ==> player.experience + experience - LEVEL_EXPERIENCE
            < LEVEL_EXPERIENCE,
        !player.spec_levels_up(experience) ==> player.experience + experience < LEVEL_EXPERIENCE,
{
}

/// The keys that walk the hero, as far as they are held down.
#[derive(Debug, Clone, Copy, PartialEq, Eq, Structural)]
pub struct WalkKeys {
    pub up: bool,
    pub down: bool,
    pub left: bool,
    pub right: bool,
}

impl WalkKeys {
    /// The keys that walk the hero as `keyboard` records them: `W` leads up,
    /// `S` down, `A` to the left and `D` to the right.
    pub open spec fn spec_read(keyboard: Input<KeyCode>) -> WalkKeys {
        WalkKeys {
            up: keys_pressed(keyboard).contains(Key::W),
            down: keys_pressed(keyboard).contains(Key::S),
            left: keys_pressed(keyboard).contains(Key::A),
            right: keys_pressed(keyboard).contains(Key::D),
        }
    }

    /// Reads the keys that walk the hero off the keyboard.
    pub fn read(keyboard: &Input<KeyCode>) -> (keys: WalkKeys)
        ensures
            keys == Self::spec_read(*keyboard),
    {
        WalkKeys {
            up: pressed(keyboard, Key::W),
            down: pressed(keyboard, Key::S),
            left: pressed(keyboard, Key::A),
            right: pressed(keyboard, Key::D),
        }
    }
}

/// The axes the hero walks along.
#[derive(Debug, Clone, Copy, PartialEq, Eq, Structural)]
pub enum Axis {
    Vertical,
    Horizontal,
}

/// The sign of a step along an axis.
#[derive(Debug, Clone, Copy, PartialEq, Eq, Structural)]
pub enum Motion {
    /// Down or to the left.
    Backward,
    /// No step at all.
    Still,
    /// Up or to the right.
    Forward,
}

/// Whether the hero takes a step: only while active, and only where no wall
/// is in the way.
pub open spec fn spec_moves(player: Player, blocked: bool) -> bool {
    player.active && !blocked
}

/// The way the hero faces after trying a step: a step that is taken turns
/// the hero the way it leads, anything else leaves the hero as before.
pub open spec fn spec_facing(
    player: Player,
    facing: Direction,
    axis: Axis,
    motion: Motion,
    blocked: bool,
) -> Direction {
    if !spec_moves(player, blocked) {
        facing
    } else {
        match (axis, motion) {
            (_, Motion::Still) => facing,
            (Axis::Vertical, Motion::Forward) => Direction::Up,
            (Axis::Vertical, Motion::Backward) => Direction::Down,
            (Axis::Horizontal, Motion::Forward) => Direction::Right,
            (Axis::Horizontal, Motion::Backward) => Direction::Left,
        }
    }
}

/// Tries a step of the hero along `axis`. The engine says which way the step
/// leads and whether a wall stands where it ends; the result says whether the
/// hero moves there, and `direction` turns with a step that is taken.
pub fn movement(
    player: &Player,
    direction: &mut PlayerDirection,
    axis: Axis,
    motion: Motion,
    blocked: bool,
) -> (moves: bool)
    ensures
        moves == spec_moves(*player, blocked),
        final(direction).0 == spec_facing(*player, old(direction).0, axis, motion, blocked),
{
    if !player.active || blocked {
        return false;
    }
    match motion {
        Motion::Still => {},
        Motion::Forward => {
            match axis {
                Axis::Vertical => {
                    direction.0 = Direction::Up;
                },
                Axis::Horizontal => {
                    direction.0 = Direction::Right;
                },
            }
        },
        Motion::Backward => {
            match axis {
                Axis::Vertical => {
                    direction.0 = Direction::Down;
                },
                Axis::Horizontal => {
                    direction.0 = Direction::Left;
                },
            }
        },
    }
    true
}

/// A frame tries the step along the vertical axis first and the step along
/// the horizontal axis second, so a hero who takes a step sideways faces
/// sideways, whatever the vertical step did.
pub proof fn lemma_sideways_step_turns_last(
    player: Player,
    facing: Direction,
    vertical: Motion,
    vertical_blocked: bool,
    horizontal: Motion,
)
    requires
        player.active,
        horizontal != Motion::Still,
    ensures
        spec_facing(
            player,
            spec_facing(player, facing, Axis::Vertical, vertical, vertical_blocked),
            Axis::Horizontal,
            horizontal,
            false,
        ) == (if horizontal == Motion::Forward {
            Direction::Right
        } else {
            Direction::Left
        }),
{
}

/// A step that is not taken, and a step that leads nowhere, leave the hero
/// facing as before.
pub proof fn lemma_no_step_no_turn(
    player: Player,
    facing: Direction,
    axis: Axis,
    motion: Motion,
    blocked: bool,
)
    requires
        !spec_moves(player, blocked) || motion == Motion::Still,
    ensures
        spec_facing(player, facing, axis, motion, blocked) == facing,
{
}

/// Whether an enemy shows up: the encounter timer has run out under a hero
/// who stands in tall grass.
pub open spec fn spec_encounter(on_encounter_tile: bool, timer_finished: bool) -> bool {
    on_encounter_tile && timer_finished
}

/// Checks for an encounter. The engine runs the encounter timer only while
/// the hero stands on a tile that spawns encounters, and says here whether
/// the hero stands on one and whether the timer has just run out. Where an
/// enemy shows up, the hero stops answering the keys and the game fades to a
/// fight.
pub fn encounter_check(player: &mut Player, on_encounter_tile: bool, timer_finished: bool) -> (fade_to:
    Option<GameState>)
    ensures
        final(player).experience == old(player).experience,
        spec_encounter(on_encounter_tile, timer_finished) ==> !final(player).active && fade_to
            == Some(GameState::Combat),
        !spec_encounter(on_encounter_tile, timer_finished) ==> *final(player) == *old(player)
            && fade_to.is_none(),
{
    if on_encounter_tile && timer_finished {
        player.active = false;
        Some(GameState::Combat)
    } else {
        None
    }
}

} // verus!

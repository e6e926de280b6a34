//! Rules of a small tile-based role-playing game.
//!
//! The crate holds what the game decides: how a fight proceeds, what a hit
//! costs, when the hero gains a level, which keys do what, which way the hero
//! faces, what a map file spawns and which glyphs draw a piece of text.
//! Pictures, sound, the clock and everything that is measured in fractions of
//! the screen belong to the engine that hosts these rules: the engine hands in
//! what it measured and carries out what the rules answer.

use vstd::prelude::*;

pub mod ascii;
pub mod audio;
pub mod combat;
pub mod fadeout;
pub mod graphics;
pub mod keys;
pub mod npc;
pub mod player;
pub mod start_menu;
pub mod tilemap;

verus! {

/// The screens the game moves between.
#[derive(Debug, Clone, Copy, PartialEq, Eq, Hash, Structural)]
pub enum GameState {
    StartMenu,
    Overworld,
    Combat,
}

impl Default for GameState {
    /// The game opens on the start menu.
    fn default() -> (state: Self)
        ensures
            state == GameState::StartMenu,
    {
        GameState::StartMenu
    }
}

} // verus!

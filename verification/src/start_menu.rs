//! The start menu: one button that starts the game.

use vstd::prelude::*;

use crate::GameState;

verus! {

/// What the pointer does to a button.
#[derive(Debug, Clone, Copy, PartialEq, Eq, Structural)]
pub enum Interaction {
    Pressed,
    Hovered,
    Idle,
}

/// What the start button does in answer to the pointer.
#[derive(Debug, Clone, Copy, PartialEq, Eq, Structural)]
pub struct ButtonResponse {
    /// Whether the button shows its pressed picture.
    pub pressed: bool,
    /// Whether the button stops answering the pointer.
    pub deactivate: bool,
    /// The screen to fade to, if any.
    pub fade_to: Option<GameState>,
}

/// The answer of the start button: pressed, it stays pressed, stops
/// answering and the game fades to the overworld; otherwise it shows its
/// plain picture.
pub open spec fn spec_start_button(interaction: Interaction) -> ButtonResponse {
    if interaction == Interaction::Pressed {
        ButtonResponse { pressed: true, deactivate: true, fade_to: Some(GameState::Overworld) }
    } else {
        ButtonResponse { pressed: false, deactivate: false, fade_to: None }
    }
}

/// The answer of the start button to the pointer.
pub fn start_button(interaction: Interaction) -> (response: ButtonResponse)
    ensures
        response == spec_start_button(interaction),
{
    match interaction {
        Interaction::Pressed => ButtonResponse {
            pressed: true,
            deactivate: true,
            fade_to: Some(GameState::Overworld),
        },
        _ => ButtonResponse { pressed: false, deactivate: false, fade_to: None },
    }
}

} // verus!

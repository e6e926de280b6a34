//! The fade between screens: the picture darkens, the screen changes behind
//! the dark, and the picture clears again.

use vstd::prelude::*;

use crate::GameState;

verus! {

/// Where the timer of a fade stands.
#[derive(Debug, Clone, Copy, PartialEq, Eq, Structural)]
pub enum Progress {
    /// Less than half of the time has run.
    BeforeHalf,
    /// Half of the time has run, to the digit.
    AtHalf,
    /// More than half of the time has run.
    PastHalf,
}

/// Which way the darkness goes.
#[derive(Debug, Clone, Copy, PartialEq, Eq, Structural)]
pub enum Ramp {
    /// Darker: the opacity is twice the share of the time that has run.
    Rising,
    /// Clearer: the opacity is twice the share of the time that is left.
    Falling,
}

/// A fade to another screen.
#[derive(Debug, Clone, Copy, PartialEq, Eq, Structural)]
pub struct ScreenFade {
    /// Whether the screen has been changed already.
    pub sent: bool,
    pub next_state: GameState,
}

/// What one frame of a fade asks of the engine.
#[derive(Debug, Clone, Copy, PartialEq, Eq, Structural)]
pub struct FadeFrame {
    pub ramp: Ramp,
    /// The screen to enter now, if any.
    pub enter: Option<GameState>,
    /// Whether the fade is over and leaves the picture.
    pub despawn: bool,
}

impl ScreenFade {
    /// Whether this frame changes the screen: the first frame past the
    /// middle of the fade does.
    pub open spec fn spec_sends(self, progress: Progress) -> bool {
        progress == Progress::PastHalf && !self.sent
    }

    /// What a frame at `progress` asks of the engine.
    pub open spec fn spec_frame(self, progress: Progress, timer_finished: bool) -> FadeFrame {
        FadeFrame {
            ramp: if progress == Progress::BeforeHalf {
                Ramp::Rising
            } else {
                Ramp::Falling
            },
            enter: if self.spec_sends(progress) {
                Some(self.next_state)
            } else {
                None
            },
            despawn: timer_finished,
        }
    }

    /// The fade after a frame at `progress`.
    pub open spec fn spec_after(self, progress: Progress) -> ScreenFade {
        ScreenFade { sent: self.sent || progress == Progress::PastHalf, next_state: self.next_state }
    }

    /// Starts a fade to `next_state`.
    pub fn create(next_state: GameState) -> (fade: ScreenFade)
        ensures
            fade == (ScreenFade { sent: false, next_state }),
    {
        ScreenFade { sent: false, next_state }
    }

    /// Runs one frame of the fade, given where its timer stands and whether
    /// the timer has just run out.
    pub fn run(&mut self, progress: Progress, timer_finished: bool) -> (frame: FadeFrame)
        ensures
            frame == old(self).spec_frame(progress, timer_finished),
            *final(self) == old(self).spec_after(progress),
    {
        let ramp = match progress {
            Progress::BeforeHalf => Ramp::Rising,
            _ => Ramp::Falling,
        };
        let past_half = match progress {
            Progress::PastHalf => true,
            _ => false,
        };
        let enter = if past_half && !self.sent {
            self.sent = true;
            Some(self.next_state)
        } else {
            None
        };
        FadeFrame { ramp, enter, despawn: timer_finished }
    }
}

/// A fade changes the screen once: after the frame that changed it no later
/// frame does, wherever the timer stands.
pub proof fn lemma_fade_sends_once(fade: ScreenFade, first: Progress, later: Progress)
    requires
        fade.spec_sends(first),
    ensures
        !fade.spec_after(first).spec_sends(later),
{
}

/// A fade that has not changed the screen before the middle changes it on
/// the first frame past the middle, and to the screen it was started for.
pub proof fn lemma_fade_sends_past_half(next_state: GameState, timer_finished: bool)
    ensures
        (ScreenFade { sent: false, next_state }).spec_frame(
            Progress::PastHalf,
            timer_finished,
        ).enter == Some(next_state),
        (ScreenFade { sent: false, next_state }).spec_frame(
            Progress::BeforeHalf,
            timer_finished,
        ).enter.is_none(),
        (ScreenFade { sent: false, next_state }).spec_frame(Progress::AtHalf, timer_finished).enter.is_none(),
{
}

} // verus!

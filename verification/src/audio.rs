//! The sounds of the game: which file plays each of them, and when a sound
//! is loaded.

use vstd::prelude::*;

verus! {

/// The sounds of the game.
#[derive(Debug, Clone, Copy, PartialEq, Eq, Structural)]
pub enum Track {
    OverworldMusic,
    CombatMusic,
    HitSfx,
    RewardSfx,
}

/// Loudness of every sound, in tenths of the loudness of its file.
pub const VOLUME_TENTHS: u8 = 6;

impl Track {
    /// The file a sound is read from.
    pub open spec fn spec_asset(self) -> Seq<char> {
        match self {
            Track::OverworldMusic => "bip-bop.ogg"@,
            Track::CombatMusic => "ganxta.ogg"@,
            Track::HitSfx => "hit.wav"@,
            Track::RewardSfx => "reward.wav"@,
        }
    }

    /// The file a sound is read from.
    pub fn asset(self) -> (name: &'static str)
        ensures
            name@ == self.spec_asset(),
    {
        match self {
            Track::OverworldMusic => "bip-bop.ogg",
            Track::CombatMusic => "ganxta.ogg",
            Track::HitSfx => "hit.wav",
            Track::RewardSfx => "reward.wav",
        }
    }

    /// Whether a sound starts over when it ends. Music does; an effect is
    /// removed once it has played.
    pub open spec fn spec_loops(self) -> bool {
        self == Track::OverworldMusic || self == Track::CombatMusic
    }

    /// Whether a sound starts over when it ends.
    #[verifier::when_used_as_spec(spec_loops)]
    pub fn loops(self) -> (looping: bool)
        ensures
            looping == self.spec_loops(),
    {
        match self {
            Track::OverworldMusic => true,
            Track::CombatMusic => true,
            _ => false,
        }
    }
}

/// Whether a sound is to be loaded, given how many copies of it play
/// already: it is loaded where none does. There is never more than one.
pub fn load(playing: usize) -> (spawn: bool)
    requires
        playing <= 1,
    ensures
        spawn == (playing == 0),
{
    playing == 0
}

} // verus!

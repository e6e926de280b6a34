//! The character sheet: which frames animate the hero and the enemies, and
//! the animation that steps through them.

use vstd::prelude::*;

use crate::combat::EnemyType;

verus! {

/// Sprites in one row of the character sheet.
pub const SHEET_COLUMNS: usize = 12;

/// Frames in one animation.
pub const FRAMES: usize = 3;

/// The way the hero faces.
#[derive(Debug, Clone, Copy, PartialEq, Eq, Hash, Structural)]
pub enum Direction {
    Up,
    Down,
    Left,
    Right,
}

/// The way the hero faces, as the engine stores it on the hero.
#[derive(Debug, Clone, Copy, PartialEq, Eq, Structural)]
pub struct PlayerDirection(pub Direction);

/// The three frames of the animation that starts at `column` of `row`.
pub open spec fn spec_frames_at(row: int, column: int) -> Seq<usize> {
    seq![
        (SHEET_COLUMNS * row + column) as usize,
        (SHEET_COLUMNS * row + column + 1) as usize,
        (SHEET_COLUMNS * row + column + 2) as usize,
    ]
}

/// The frames that show the hero walking towards `direction`: the sheet has
/// one row for each direction, and the hero stands in its third block.
pub open spec fn spec_player_frames(direction: Direction) -> Seq<usize> {
    match direction {
        Direction::Down => spec_frames_at(0, 6),
        Direction::Left => spec_frames_at(1, 6),
        Direction::Right => spec_frames_at(2, 6),
        Direction::Up => spec_frames_at(3, 6),
    }
}

/// The frames that show an enemy of kind `typ`: the enemies share the fifth
/// row of the sheet.
pub open spec fn spec_enemy_frames(typ: EnemyType) -> Seq<usize> {
    match typ {
        EnemyType::Bat => spec_frames_at(4, 3),
        EnemyType::Spectre => spec_frames_at(4, 6),
    }
}

fn frames_at(row: usize, column: usize) -> (frames: [usize; 3])
    requires
        row < 8,
        column + 2 < 12,
    ensures
        frames@ == spec_frames_at(row as int, column as int),
{
    let frames = [
        SHEET_COLUMNS * row + column,
        SHEET_COLUMNS * row + column + 1,
        SHEET_COLUMNS * row + column + 2,
    ];
    assert(frames@ =~= spec_frames_at(row as int, column as int));
    frames
}

/// The key under which the frames of `direction` are kept.
pub open spec fn spec_direction_key(direction: Direction) -> u8 {
    match direction {
        Direction::Up => 0,
        Direction::Down => 1,
        Direction::Left => 2,
        Direction::Right => 3,
    }
}

/// The key under which the frames of `typ` are kept.
pub open spec fn spec_enemy_key(typ: EnemyType) -> u8 {
    match typ {
        EnemyType::Bat => 0,
        EnemyType::Spectre => 1,
    }
}

fn direction_key(direction: &Direction) -> (key: u8)
    ensures
        key == spec_direction_key(*direction),
{
    match direction {
        Direction::Up => 0,
        Direction::Down => 1,
        Direction::Left => 2,
        Direction::Right => 3,
    }
}

fn enemy_key(typ: &EnemyType) -> (key: u8)
    ensures
        key == spec_enemy_key(*typ),
{
    match typ {
        EnemyType::Bat => 0,
        EnemyType::Spectre => 1,
    }
}

/// A table from a one-byte key to the frames of an animation, kept in
/// `bevy::utils::HashMap`, the engine's `hashbrown` map. The map's type has
/// an allocator parameter that cannot be named outside `hashbrown`, so the
/// map sits in a field that Verus does not look into: what it holds is
/// `frame_table_entries`, and the three functions below say what the map's
/// own `new`, `insert` and `get` do to it. Nothing about them is proved
/// here.
#[verifier::external_body]
pub struct FrameTable {
    map: bevy::utils::HashMap<u8, [usize; 3]>,
}

/// The entries of a table: the frames kept under each key.
pub uninterp spec fn frame_table_entries(table: FrameTable) -> Map<u8, Seq<usize>>;

/// `hashbrown::HashMap::new`, called on `bevy::utils::HashMap`. Trusted: the
/// new table has no entries.
#[verifier::external_body]
fn frame_table_new() -> (table: FrameTable)
    ensures
        frame_table_entries(table) =~= Map::empty(),
{
    FrameTable { map: bevy::utils::HashMap::new() }
}

/// `hashbrown::HashMap::insert`. Trusted: afterwards `key` leads to `frames`,
/// whether or not it had an entry before, and every other key leads to what
/// it led to.
#[verifier::external_body]
fn frame_table_insert(table: &mut FrameTable, key: u8, frames: [usize; 3])
    ensures
        frame_table_entries(*final(table)) == frame_table_entries(*old(table)).insert(key, frames@),
{
    table.map.insert(key, frames);
}

/// `hashbrown::HashMap::get`. Trusted: the result is the entry of `key` where
/// the table has one, and `None` where it has none.
#[verifier::external_body]
fn frame_table_get(table: &FrameTable, key: u8) -> (frames: Option<&[usize; 3]>)
    ensures
        frames is Some <==> frame_table_entries(*table).dom().contains(key),
        frames matches Some(found) ==> found@ == frame_table_entries(*table)[key],
{
    table.map.get(&key)
}

/// The frames of every animation on the character sheet.
pub struct CharacterSheet {
    player_frames: FrameTable,
    enemy_frames: FrameTable,
}

impl CharacterSheet {
    /// A sheet always holds the frames of every direction and of every kind
    /// of enemy.
    #[verifier::type_invariant]
    spec fn is_complete(&self) -> bool {
        &&& forall|direction: Direction|
            frame_table_entries(self.player_frames).dom().contains(
                #[trigger] spec_direction_key(direction),
            ) && frame_table_entries(self.player_frames)[spec_direction_key(direction)]
                == spec_player_frames(direction)
        &&& forall|typ: EnemyType|
            frame_table_entries(self.enemy_frames).dom().contains(#[trigger] spec_enemy_key(typ))
                && frame_table_entries(self.enemy_frames)[spec_enemy_key(typ)]
                == spec_enemy_frames(typ)
    }

    /// The frames the sheet keeps for the hero walking towards `direction`.
    pub closed spec fn spec_kept_player_frames(&self, direction: Direction) -> Seq<usize> {
        frame_table_entries(self.player_frames)[spec_direction_key(direction)]
    }

    /// The frames the sheet keeps for an enemy of kind `typ`.
    pub closed spec fn spec_kept_enemy_frames(&self, typ: EnemyType) -> Seq<usize> {
        frame_table_entries(self.enemy_frames)[spec_enemy_key(typ)]
    }

    /// Lays out the sheet: the hero's four walks in its first four rows, the
    /// enemies in the fifth.
    pub fn load() -> (sheet: CharacterSheet)
        ensures
            forall|direction: Direction| #[trigger]
                sheet.spec_kept_player_frames(direction) == spec_player_frames(direction),
            forall|typ: EnemyType| #[trigger]
                sheet.spec_kept_enemy_frames(typ) == spec_enemy_frames(typ),
    {
        let mut player_frames = frame_table_new();
        frame_table_insert(&mut player_frames, direction_key(&Direction::Down), frames_at(0, 6));
        frame_table_insert(&mut player_frames, direction_key(&Direction::Left), frames_at(1, 6));
        frame_table_insert(&mut player_frames, direction_key(&Direction::Right), frames_at(2, 6));
        frame_table_insert(&mut player_frames, direction_key(&Direction::Up), frames_at(3, 6));

        let mut enemy_frames = frame_table_new();
        frame_table_insert(&mut enemy_frames, enemy_key(&EnemyType::Bat), frames_at(4, 3));
        frame_table_insert(&mut enemy_frames, enemy_key(&EnemyType::Spectre), frames_at(4, 6));

        CharacterSheet { player_frames, enemy_frames }
    }

    /// The frames that show the hero walking towards `direction`.
    pub fn get_player_frames(&self, direction: &Direction) -> (frames: &[usize; 3])
        ensures
            frames@ == self.spec_kept_player_frames(*direction),
            frames@ == spec_player_frames(*direction),
    {
        proof {
            use_type_invariant(self);
        }
        frame_table_get(&self.player_frames, direction_key(direction)).unwrap()
    }

    /// The frames that show an enemy of kind `typ`.
    pub fn get_enemy_frames(&self, typ: &EnemyType) -> (frames: &[usize; 3])
        ensures
            frames@ == self.spec_kept_enemy_frames(*typ),
            frames@ == spec_enemy_frames(*typ),
    {
        proof {
            use_type_invariant(self);
        }
        frame_table_get(&self.enemy_frames, enemy_key(typ)).unwrap()
    }
}

/// What an animation is: its frames and the one it shows.
pub struct Frames {
    pub frames: Seq<usize>,
    pub current: int,
}

impl Frames {
    /// An animation has three frames and shows one of them.
    pub open spec fn wf(self) -> bool {
        self.frames.len() == FRAMES && 0 <= self.current < FRAMES
    }

    /// The sheet index of the frame on show.
    pub open spec fn frame(self) -> usize {
        self.frames[self.current]
    }

    /// The animation one step on: it shows its next frame, and its first
    /// after its last.
    pub open spec fn tick(self) -> Frames {
        Frames { frames: self.frames, current: (self.current + 1) % (self.frames.len() as int) }
    }

    /// The animation with other frames, at the step it was at.
    pub open spec fn with_frames(self, frames: Seq<usize>) -> Frames {
        Frames { frames, current: self.current }
    }
}

/// A looping animation over three frames of the character sheet.
pub struct FrameAnimation {
    frames: Vec<usize>,
    current_frame: usize,
}

impl View for FrameAnimation {
    type V = Frames;

    closed spec fn view(&self) -> Frames {
        Frames { frames: self.frames@, current: self.current_frame as int }
    }
}

impl FrameAnimation {
    #[verifier::type_invariant]
    spec fn is_wf(&self) -> bool {
        self@.wf()
    }

    /// Starts an animation over `frames` at its first frame.
    pub fn new(frames: &[usize; 3]) -> (animation: FrameAnimation)
        ensures
            animation@ == (Frames { frames: frames@, current: 0 }),
            animation@.wf(),
    {
        let animation = FrameAnimation {
            frames: vec![frames[0], frames[1], frames[2]],
            current_frame: 0,
        };
        assert(animation.frames@ =~= frames@);
        animation
    }

    /// The sheet index of the frame on show.
    pub fn frame(&self) -> (index: usize)
        ensures
            self@.wf(),
            index == self@.frame(),
    {
        proof {
            use_type_invariant(self);
        }
        self.frames[self.current_frame]
    }

    /// Steps to the next frame, and from the last to the first.
    pub fn tick(&mut self)
        ensures
            old(self)@.wf(),
            final(self)@ == old(self)@.tick(),
    {
        proof {
            use_type_invariant(&*self);
        }
        self.current_frame = (self.current_frame + 1) % self.frames.len();
    }

    /// Swaps the frames and stays at the step the animation was at.
    pub fn set_frames(&mut self, frames: &[usize; 3])
        ensures
            old(self)@.wf(),
            final(self)@ == old(self)@.with_frames(frames@),
    {
        proof {
            use_type_invariant(&*self);
        }
        self.frames = vec![frames[0], frames[1], frames[2]];
        assert(self.frames@ =~= frames@);
    }

    /// One beat of the animation clock: where the animation's timer has just
    /// run out the animation steps on and the result is the frame to show
    /// next, else nothing changes.
    pub fn animate(&mut self, timer_finished: bool) -> (shown: Option<usize>)
        ensures
            old(self)@.wf(),
            final(self)@ == (if timer_finished {
                old(self)@.tick()
            } else {
                old(self)@
            }),
            shown == (if timer_finished {
                Some(old(self)@.tick().frame())
            } else {
                None
            }),
    {
        proof {
            use_type_invariant(&*self);
        }
        if timer_finished {
            self.tick();
            Some(self.frame())
        } else {
            None
        }
    }
}

/// Turns the hero's animation to the way the hero now faces.
pub fn update_player(
    direction: &PlayerDirection,
    animation: &mut FrameAnimation,
    characters: &CharacterSheet,
)
    ensures
        final(animation)@ == old(animation)@.with_frames(spec_player_frames(direction.0)),
{
    animation.set_frames(characters.get_player_frames(&direction.0));
}

/// A step keeps an animation well formed.
pub proof fn lemma_tick_wf(animation: Frames)
    requires
        animation.wf(),
    ensures
        animation.tick().wf(),
        animation.tick().current == (if animation.current == 2 {
            0
        } else {
            animation.current + 1
        }),
{
}

/// An animation loops: after as many steps as it has frames it is where it
/// began.
pub proof fn lemma_tick_loops(animation: Frames)
    requires
        animation.wf(),
    ensures
        animation.tick().tick().tick() == animation,
{
    let once = animation.tick();
    let twice = once.tick();
    lemma_tick_wf(animation);
    lemma_tick_wf(once);
    lemma_tick_wf(twice);
    assert(twice.tick().current == animation.current);
    assert(twice.tick().frames == animation.frames);
}

/// Swapping the frames keeps an animation well formed.
pub proof fn lemma_with_frames_wf(animation: Frames, frames: Seq<usize>)
    requires
        animation.wf(),
        frames.len() == FRAMES,
    ensures
        animation.with_frames(frames).wf(),
{
}

} // verus!

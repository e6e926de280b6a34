//! The overworld map: a text file in which every character is a tile.

use vstd::prelude::*;

use crate::npc::Role;

verus! {

/// What a character of the map file stands for.
#[derive(Debug, Clone, Copy, PartialEq, Eq, Structural)]
pub enum TileKind {
    /// `#`: nobody walks through it.
    Wall,
    /// `@`: somebody who heals the hero, and stands in the way.
    Healer,
    /// `~`: tall grass, where enemies wait.
    Grass,
    /// Anything else: open ground.
    Floor,
}

/// What the character `c` of a map file stands for.
pub open spec fn spec_tile_kind(c: char) -> TileKind {
    if c == '#' {
        TileKind::Wall
    } else if c == '@' {
        TileKind::Healer
    } else if c == '~' {
        TileKind::Grass
    } else {
        TileKind::Floor
    }
}

/// What the character `c` of a map file stands for.
pub fn tile_kind(c: char) -> (kind: TileKind)
    ensures
        kind == spec_tile_kind(c),
{
    if c == '#' {
        TileKind::Wall
    } else if c == '@' {
        TileKind::Healer
    } else if c == '~' {
        TileKind::Grass
    } else {
        TileKind::Floor
    }
}

impl TileKind {
    /// Whether the hero cannot walk onto such a tile.
    pub open spec fn spec_is_collider(self) -> bool {
        self == TileKind::Wall || self == TileKind::Healer
    }

    /// Whether the hero cannot walk onto such a tile.
    #[verifier::when_used_as_spec(spec_is_collider)]
    pub fn is_collider(self) -> (collides: bool)
        ensures
            collides == self.spec_is_collider(),
    {
        match self {
            TileKind::Wall => true,
            TileKind::Healer => true,
            _ => false,
        }
    }

    /// Whether enemies wait on such a tile.
    pub open spec fn spec_spawns_encounters(self) -> bool {
        self == TileKind::Grass
    }

    /// Whether enemies wait on such a tile.
    #[verifier::when_used_as_spec(spec_spawns_encounters)]
    pub fn spawns_encounters(self) -> (spawns: bool)
        ensures
            spawns == self.spec_spawns_encounters(),
    {
        match self {
            TileKind::Grass => true,
            _ => false,
        }
    }

    /// What the one who stands on such a tile does for the hero.
    pub open spec fn spec_role(self) -> Option<Role> {
        if self == TileKind::Healer {
            Some(Role::Healer)
        } else {
            None
        }
    }

    /// What the one who stands on such a tile does for the hero.
    #[verifier::when_used_as_spec(spec_role)]
    pub fn role(self) -> (role: Option<Role>)
        ensures
            role == self.spec_role(),
    {
        match self {
            TileKind::Healer => Some(Role::Healer),
            _ => None,
        }
    }

    /// The colour such a tile is drawn in: red, green and blue in tenths of
    /// full brightness.
    pub open spec fn spec_tint(self) -> (u8, u8, u8) {
        match self {
            TileKind::Wall => (7, 7, 7),
            TileKind::Healer => (5, 5, 2),
            TileKind::Grass => (2, 9, 2),
            TileKind::Floor => (9, 9, 9),
        }
    }

    /// The colour such a tile is drawn in: red, green and blue in tenths of
    /// full brightness.
    #[verifier::when_used_as_spec(spec_tint)]
    pub fn tint(self) -> (tenths: (u8, u8, u8))
        ensures
            tenths == self.spec_tint(),
    {
        match self {
            TileKind::Wall => (7, 7, 7),
            TileKind::Healer => (5, 5, 2),
            TileKind::Grass => (2, 9, 2),
            TileKind::Floor => (9, 9, 9),
        }
    }
}

/// A tile of the map: the glyph that draws it, what it stands for, and its
/// column and row, counted from the upper left corner of the file.
#[derive(Debug, Clone, Copy, PartialEq, Eq, Structural)]
pub struct Tile {
    pub glyph: usize,
    pub kind: TileKind,
    pub x: usize,
    pub y: usize,
}

/// The tile that the character `c` in column `x` of row `y` makes. A tile is
/// drawn with the glyph of its own character.
pub open spec fn spec_tile(c: char, x: int, y: int) -> Tile {
    Tile { glyph: c as usize, kind: spec_tile_kind(c), x: x as usize, y: y as usize }
}

/// The tiles of row `y`, from left to right.
pub open spec fn spec_row_tiles(y: int, line: Seq<char>) -> Seq<Tile> {
    Seq::new(line.len(), |x: int| spec_tile(line[x], x, y))
}

/// The tiles of a map, row by row from the top. A row that could not be
/// read has no tiles, and the rows below it stay where they are.
pub open spec fn spec_map_tiles(rows: Seq<Option<Seq<char>>>) -> Seq<Tile>
    decreases rows.len(),
{
    if rows.len() == 0 {
        Seq::empty()
    } else {
        let above = spec_map_tiles(rows.drop_last());
        match rows.last() {
            Some(line) => above + spec_row_tiles(rows.len() - 1, line),
            None => above,
        }
    }
}

/// Every character of every row that could be read has its tile on the map,
/// at its own column and row.
pub proof fn lemma_map_has_every_tile(rows: Seq<Option<Seq<char>>>, x: int, y: int)
    requires
        0 <= y < rows.len(),
        rows[y] is Some,
        0 <= x < rows[y]->0.len(),
    ensures
        spec_map_tiles(rows).contains(spec_tile(rows[y]->0[x], x, y)),
    decreases rows.len(),
{
    let above = spec_map_tiles(rows.drop_last());
    if y == rows.len() - 1 {
        let line = rows[y]->0;
        let row = spec_row_tiles(y, line);
        assert(row[x] == spec_tile(line[x], x, y));
        assert((above + row)[above.len() + x] == row[x]);
    } else {
        lemma_map_has_every_tile(rows.drop_last(), x, y);
        let tile = spec_tile(rows[y]->0[x], x, y);
        let at = choose|i: int| 0 <= i < above.len() && above[i] == tile;
        match rows.last() {
            Some(line) => {
                assert((above + spec_row_tiles(rows.len() - 1, line))[at] == tile);
            },
            None => {},
        }
    }
}

/// The number of characters in the rows of a map that could be read.
pub open spec fn spec_map_size(rows: Seq<Option<Seq<char>>>) -> nat
    decreases rows.len(),
{
    if rows.len() == 0 {
        0
    } else {
        spec_map_size(rows.drop_last()) + match rows.last() {
            Some(line) => line.len(),
            None => 0,
        }
    }
}

/// A map has as many tiles as the rows that could be read have characters.
pub proof fn lemma_map_size(rows: Seq<Option<Seq<char>>>)
    ensures
        spec_map_tiles(rows).len() == spec_map_size(rows),
    decreases rows.len(),
{
    if rows.len() > 0 {
        lemma_map_size(rows.drop_last());
    }
}

fn tile(c: char, x: usize, y: usize) -> (tile: Tile)
    ensures
        tile == spec_tile(c, x as int, y as int),
{
    Tile { glyph: c as usize, kind: tile_kind(c), x, y }
}

fn push_row(tiles: &mut Vec<Tile>, y: usize, line: &str)
    ensures
        final(tiles)@ == old(tiles)@ + spec_row_tiles(y as int, line@),
{
    let start = tiles.len();
    for c in it: line.chars()
        invariant
            it.seq() == line@,
            start == old(tiles)@.len(),
            tiles@ == old(tiles)@ + spec_row_tiles(y as int, line@.take(it.index())),
    {
        let x = tiles.len() - start;
        proof {
            assert(line@.take(it.index() + 1) =~= line@.take(it.index()).push(c));
        }
        tiles.push(tile(c, x, y));
        proof {
            assert(tiles@ =~= old(tiles)@ + spec_row_tiles(y as int, line@.take(it.index() + 1)));
        }
    }
    proof {
        assert(line@.take(line@.len() as int) =~= line@);
    }
}

/// Reads a map from the rows of its file; a row is `None` where the file
/// could not be read as text. The result lists every tile to spawn.
pub fn create_simple(rows: &Vec<Option<String>>) -> (tiles: Vec<Tile>)
    ensures
        tiles@ == spec_map_tiles(rows.deep_view()),
{
    let mut tiles: Vec<Tile> = Vec::new();
    let mut y: usize = 0;
    while y < rows.len()
        invariant
            y <= rows.len(),
            tiles@ == spec_map_tiles(rows.deep_view().take(y as int)),
        decreases rows.len() - y,
    {
        proof {
            let done = rows.deep_view().take(y as int);
            let more = rows.deep_view().take(y + 1);
            assert(more.drop_last() =~= done);
            assert(more.last() == rows.deep_view()[y as int]);
            assert(rows.deep_view()[y as int] == rows@[y as int].deep_view());
        }
        match &rows[y] {
            Some(line) => {
                push_row(&mut tiles, y, line.as_str());
            },
            None => {},
        }
        y += 1;
    }
    proof {
        assert(rows.deep_view().take(rows.len() as int) =~= rows.deep_view());
    }
    tiles
}

} // verus!

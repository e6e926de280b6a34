//! The glyph sheet: a 16 by 16 grid of characters that draws every piece of
//! text, every map tile and every bordered box.

use vstd::prelude::*;

verus! {

/// Glyphs in one row of the sheet.
pub const SHEET_COLUMNS: usize = 16;

/// The highest glyph the sheet holds.
pub const LAST_GLYPH: usize = 255;

/// The sheet index of the glyph in `row` and `column`, rows counted from the top.
pub open spec fn spec_sheet_index(row: int, column: int) -> int {
    row * SHEET_COLUMNS + column
}

/// The sheet index of the glyph in `row` and `column`, rows counted from the top.
pub fn sheet_index(row: usize, column: usize) -> (index: usize)
    requires
        row < SHEET_COLUMNS,
        column < SHEET_COLUMNS,
    ensures
        index == spec_sheet_index(row as int, column as int),
        index <= LAST_GLYPH,
{
    row * SHEET_COLUMNS + column
}

/// The glyphs a bordered box is drawn with.
#[derive(Debug, Clone, Copy, PartialEq, Eq, Structural)]
pub struct NinesliceIndices {
    pub center: usize,
    pub upper_left: usize,
    pub upper_right: usize,
    pub lower_left: usize,
    pub lower_right: usize,
    pub horizontal: usize,
    pub vertical: usize,
}

impl NinesliceIndices {
    /// The double-line box-drawing glyphs of the sheet, around a blank centre.
    pub open spec fn spec_new() -> NinesliceIndices {
        NinesliceIndices {
            center: spec_sheet_index(2, 0) as usize,
            upper_left: spec_sheet_index(13, 10) as usize,
            upper_right: spec_sheet_index(11, 15) as usize,
            lower_left: spec_sheet_index(12, 0) as usize,
            lower_right: spec_sheet_index(13, 9) as usize,
            horizontal: spec_sheet_index(12, 4) as usize,
            vertical: spec_sheet_index(11, 3) as usize,
        }
    }

    /// The double-line box-drawing glyphs of the sheet, around a blank centre.
    pub fn new() -> (indices: NinesliceIndices)
        ensures
            indices == Self::spec_new(),
    {
        NinesliceIndices {
            center: sheet_index(2, 0),
            upper_left: sheet_index(13, 10),
            upper_right: sheet_index(11, 15),
            lower_left: sheet_index(12, 0),
            lower_right: sheet_index(13, 9),
            horizontal: sheet_index(12, 4),
            vertical: sheet_index(11, 3),
        }
    }
}

/// How far a piece of a box is stretched along one axis.
#[derive(Debug, Clone, Copy, PartialEq, Eq, Structural)]
pub enum Extent {
    /// One tile.
    One,
    /// The size of the box along this axis less its two border tiles.
    Inner,
}

/// Where a piece of a box sits along one axis.
#[derive(Debug, Clone, Copy, PartialEq, Eq, Structural)]
pub enum Anchor {
    /// On the left or the lower border.
    Low,
    /// Between the borders.
    Middle,
    /// On the right or the upper border.
    High,
}

/// One of the nine sprites of a bordered box.
#[derive(Debug, Clone, Copy, PartialEq, Eq, Structural)]
pub struct Piece {
    pub index: usize,
    pub column: Anchor,
    pub row: Anchor,
    pub scale_x: Extent,
    pub scale_y: Extent,
    /// Whether the piece has no depth. The others are one tile deep.
    pub flat: bool,
}

/// The corner of a box at `column` and `row`, one tile in size.
pub open spec fn spec_corner(index: usize, column: Anchor, row: Anchor) -> Piece {
    Piece { index, column, row, scale_x: Extent::One, scale_y: Extent::One, flat: false }
}

/// The left or right border of a box, as tall as its inside.
pub open spec fn spec_side(index: usize, column: Anchor) -> Piece {
    Piece { index, column, row: Anchor::Middle, scale_x: Extent::One, scale_y: Extent::Inner, flat: false }
}

/// The upper or lower border of a box, as wide as its inside.
pub open spec fn spec_edge(index: usize, row: Anchor) -> Piece {
    Piece { index, column: Anchor::Middle, row, scale_x: Extent::Inner, scale_y: Extent::One, flat: false }
}

/// The inside of a box.
pub open spec fn spec_filling(index: usize) -> Piece {
    Piece { index, column: Anchor::Middle, row: Anchor::Middle, scale_x: Extent::Inner, scale_y: Extent::Inner, flat: true }
}

/// The nine pieces of a box in the order they are spawned: the filling, then
/// the left border from top to bottom, the lower and the upper edge, and the
/// right border from top to bottom.
pub open spec fn spec_nineslice(indices: NinesliceIndices) -> Seq<Piece> {
    seq![
        spec_filling(indices.center),
        spec_corner(indices.upper_left, Anchor::Low, Anchor::High),
        spec_side(indices.vertical, Anchor::Low),
        spec_corner(indices.lower_left, Anchor::Low, Anchor::Low),
        spec_edge(indices.horizontal, Anchor::Low),
        spec_edge(indices.horizontal, Anchor::High),
        spec_corner(indices.upper_right, Anchor::High, Anchor::High),
        spec_side(indices.vertical, Anchor::High),
        spec_corner(indices.lower_right, Anchor::High, Anchor::Low),
    ]
}

fn corner(index: usize, column: Anchor, row: Anchor) -> (piece: Piece)
    ensures
        piece == spec_corner(index, column, row),
{
    Piece { index, column, row, scale_x: Extent::One, scale_y: Extent::One, flat: false }
}

fn side(index: usize, column: Anchor) -> (piece: Piece)
    ensures
        piece == spec_side(index, column),
{
    Piece { index, column, row: Anchor::Middle, scale_x: Extent::One, scale_y: Extent::Inner, flat: false }
}

fn edge(index: usize, row: Anchor) -> (piece: Piece)
    ensures
        piece == spec_edge(index, row),
{
    Piece { index, column: Anchor::Middle, row, scale_x: Extent::Inner, scale_y: Extent::One, flat: false }
}

/// Lays out a bordered box: which glyph goes where, and along which axes it
/// stretches with the size of the box.
pub fn nineslice(indices: &NinesliceIndices) -> (pieces: Vec<Piece>)
    ensures
        pieces@ == spec_nineslice(*indices),
{
    let mut pieces: Vec<Piece> = Vec::new();
    pieces.push(
        Piece {
            index: indices.center,
            column: Anchor::Middle,
            row: Anchor::Middle,
            scale_x: Extent::Inner,
            scale_y: Extent::Inner,
            flat: true,
        },
    );
    pieces.push(corner(indices.upper_left, Anchor::Low, Anchor::High));
    pieces.push(side(indices.vertical, Anchor::Low));
    pieces.push(corner(indices.lower_left, Anchor::Low, Anchor::Low));
    pieces.push(edge(indices.horizontal, Anchor::Low));
    pieces.push(edge(indices.horizontal, Anchor::High));
    pieces.push(corner(indices.upper_right, Anchor::High, Anchor::High));
    pieces.push(side(indices.vertical, Anchor::High));
    pieces.push(corner(indices.lower_right, Anchor::High, Anchor::Low));
    assert(pieces@ =~= spec_nineslice(*indices));
    pieces
}

/// Whether one of `pieces` sits on the cell at `column` and `row`.
pub open spec fn spec_covers(pieces: Seq<Piece>, column: Anchor, row: Anchor) -> bool {
    exists|i: int|
        0 <= i < pieces.len() && (#[trigger] pieces[i]).column == column && pieces[i].row == row
}

/// A box has one piece on each of the nine cells of its grid, and a piece
/// stretches with the box exactly along the axes on which it sits in the middle.
pub proof fn lemma_nineslice_covers_grid(indices: NinesliceIndices)
    ensures
        spec_nineslice(indices).len() == 9,
        forall|column: Anchor, row: Anchor| #[trigger]
            spec_covers(spec_nineslice(indices), column, row),
        forall|i: int, j: int|
            0 <= i < j < 9 ==> !((#[trigger] spec_nineslice(indices)[i]).column == (
            #[trigger] spec_nineslice(indices)[j]).column && spec_nineslice(indices)[i].row
                == spec_nineslice(indices)[j].row),
        forall|i: int|
            0 <= i < 9 ==> ((#[trigger] spec_nineslice(indices)[i]).scale_x == Extent::Inner
                <==> spec_nineslice(indices)[i].column == Anchor::Middle),
        forall|i: int|
            0 <= i < 9 ==> ((#[trigger] spec_nineslice(indices)[i]).scale_y == Extent::Inner
                <==> spec_nineslice(indices)[i].row == Anchor::Middle),
{
    let pieces = spec_nineslice(indices);
    assert forall|column: Anchor, row: Anchor| #[trigger]
        spec_covers(pieces, column, row) by {
        let i: int = match (column, row) {
            (Anchor::Middle, Anchor::Middle) => 0,
            (Anchor::Low, Anchor::High) => 1,
            (Anchor::Low, Anchor::Middle) => 2,
            (Anchor::Low, Anchor::Low) => 3,
            (Anchor::Middle, Anchor::Low) => 4,
            (Anchor::Middle, Anchor::High) => 5,
            (Anchor::High, Anchor::High) => 6,
            (Anchor::High, Anchor::Middle) => 7,
            (Anchor::High, Anchor::Low) => 8,
        };
        assert(pieces[i].column == column && pieces[i].row == row);
    }
}

/// Whether every character of `text` has a glyph on the sheet.
pub open spec fn spec_can_spell(text: Seq<char>) -> bool {
    forall|i: int| 0 <= i < text.len() ==> (#[trigger] text[i]) as int <= LAST_GLYPH
}

/// The glyph of each character of `text`: its code point.
pub open spec fn spec_glyphs(text: Seq<char>) -> Seq<usize> {
    Seq::new(text.len(), |i: int| text[i] as usize)
}

/// Whether the sheet holds a glyph for `c`.
pub fn has_glyph(c: char) -> (ok: bool)
    ensures
        ok == (c as int <= LAST_GLYPH),
{
    c as usize <= LAST_GLYPH
}

/// Whether every character of `text` has a glyph on the sheet.
pub fn can_spell(text: &str) -> (ok: bool)
    ensures
        ok == spec_can_spell(text@),
{
    let mut ok = true;
    for c in it: text.chars()
        invariant
            it.seq() == text@,
            ok == spec_can_spell(text@.take(it.index())),
    {
        proof {
            let done = text@.take(it.index());
            let more = text@.take(it.index() + 1);
            assert(more.drop_last() =~= done);
            assert(more.last() == c);
            assert(spec_can_spell(more) <==> spec_can_spell(done) && c as int <= LAST_GLYPH) by {
                if spec_can_spell(done) && c as int <= LAST_GLYPH {
                    assert forall|i: int| 0 <= i < more.len() implies (#[trigger] more[i]) as int
                        <= LAST_GLYPH by {
                        if i < done.len() {
                            assert(more[i] == done[i]);
                        }
                    }
                }
                if spec_can_spell(more) {
                    assert(more[it.index()] == c);
                    assert forall|i: int| 0 <= i < done.len() implies (#[trigger] done[i]) as int
                        <= LAST_GLYPH by {
                        assert(done[i] == more[i]);
                    }
                }
            }
        }
        if !has_glyph(c) {
            ok = false;
        }
    }
    proof {
        assert(text@.take(text@.len() as int) =~= text@);
    }
    ok
}

/// The glyphs that draw `text`, one for each character from left to right.
pub fn glyphs(text: &str) -> (indices: Vec<usize>)
    requires
        spec_can_spell(text@),
    ensures
        indices@ == spec_glyphs(text@),
{
    let mut indices: Vec<usize> = Vec::new();
    for c in it: text.chars()
        invariant
            it.seq() == text@,
            indices@ == spec_glyphs(text@.take(it.index())),
    {
        proof {
            assert(text@.take(it.index() + 1) =~= text@.take(it.index()).push(c));
        }
        indices.push(c as usize);
        proof {
            assert(indices@ =~= spec_glyphs(text@.take(it.index() + 1)));
        }
    }
    proof {
        assert(text@.take(text@.len() as int) =~= text@);
    }
    indices
}

/// Tiles a bordered box is high.
pub const BOX_HEIGHT: usize = 3;

/// Whether the width of a box round `text` can be counted.
pub open spec fn spec_fits_in_box(text: &str) -> bool {
    text.len() + 2 <= usize::MAX
}

/// Whether the width of a box round `text` can be counted.
pub fn fits_in_box(text: &str) -> (fits: bool)
    ensures
        fits == spec_fits_in_box(text),
{
    text.len() <= usize::MAX - 2
}

/// Tiles a bordered box round `text` is wide: a tile for each byte of the
/// text and one for the border on either side.
pub fn box_width(text: &str) -> (width: usize)
    requires
        spec_fits_in_box(text),
    ensures
        width == text.len() + 2,
{
    text.len() + 2
}

/// Tiles by which a line of `text` starts left of the point it is centred
/// on: half a tile for each byte of the text, rounded down to whole tiles.
pub fn half_width(text: &str) -> (tiles: usize)
    ensures
        tiles == text.len() / 2,
{
    text.len() / 2
}

/// The character that writes the digit `d`.
pub open spec fn spec_digit(d: int) -> char {
    if d == 0 {
        '0'
    } else if d == 1 {
        '1'
    } else if d == 2 {
        '2'
    } else if d == 3 {
        '3'
    } else if d == 4 {
        '4'
    } else if d == 5 {
        '5'
    } else if d == 6 {
        '6'
    } else if d == 7 {
        '7'
    } else if d == 8 {
        '8'
    } else {
        '9'
    }
}

/// The decimal digits of `n`, most significant first, without leading zeros.
pub open spec fn spec_digits(n: nat) -> Seq<char>
    decreases n,
{
    if n < 10 {
        seq![spec_digit(n as int)]
    } else {
        spec_digits(n / 10).push(spec_digit((n % 10) as int))
    }
}

/// How `n` is written: its digits, after a minus sign if it is negative.
pub open spec fn spec_decimal(n: int) -> Seq<char> {
    if n < 0 {
        seq!['-'] + spec_digits((-n) as nat)
    } else {
        spec_digits(n as nat)
    }
}

fn digit(d: u8) -> (text: &'static str)
    requires
        d < 10,
    ensures
        text@ == seq![spec_digit(d as int)],
{
    proof {
        reveal_strlit("0");
        reveal_strlit("1");
        reveal_strlit("2");
        reveal_strlit("3");
        reveal_strlit("4");
        reveal_strlit("5");
        reveal_strlit("6");
        reveal_strlit("7");
        reveal_strlit("8");
        reveal_strlit("9");
    }
    let text = if d == 0 {
        "0"
    } else if d == 1 {
        "1"
    } else if d == 2 {
        "2"
    } else if d == 3 {
        "3"
    } else if d == 4 {
        "4"
    } else if d == 5 {
        "5"
    } else if d == 6 {
        "6"
    } else if d == 7 {
        "7"
    } else if d == 8 {
        "8"
    } else {
        "9"
    };
    assert(text@ =~= seq![spec_digit(d as int)]);
    text
}

fn append_digits(out: &mut String, n: u128)
    ensures
        final(out)@ == old(out)@ + spec_digits(n as nat),
    decreases n,
{
    if n >= 10 {
        append_digits(out, n / 10);
    }
    let last = (n % 10) as u8;
    out.append(digit(last));
    assert(out@ =~= old(out)@ + spec_digits(n as nat));
}

/// Writes `n` in decimal.
pub fn decimal(n: isize) -> (text: String)
    ensures
        text@ == spec_decimal(n as int),
{
    let mut text = String::new();
    if n < 0 {
        proof {
            reveal_strlit("-");
        }
        text.append("-");
        let magnitude: u128 = (-(n as i128)) as u128;
        append_digits(&mut text, magnitude);
        assert(text@ =~= spec_decimal(n as int));
    } else {
        append_digits(&mut text, n as u128);
        assert(text@ =~= spec_decimal(n as int));
    }
    text
}

/// Every number can be drawn with the sheet: its digits and the minus sign
/// all have glyphs.
pub proof fn lemma_decimal_can_be_spelt(n: int)
    ensures
        spec_can_spell(spec_decimal(n)),
{
    if n < 0 {
        lemma_digits_can_be_spelt((-n) as nat);
    } else {
        lemma_digits_can_be_spelt(n as nat);
    }
}

proof fn lemma_digits_can_be_spelt(n: nat)
    ensures
        spec_can_spell(spec_digits(n)),
    decreases n,
{
    if n >= 10 {
        lemma_digits_can_be_spelt(n / 10);
    }
}

/// Joining two texts that can be drawn gives a text that can be drawn.
pub proof fn lemma_can_spell_concat(a: Seq<char>, b: Seq<char>)
    requires
        spec_can_spell(a),
        spec_can_spell(b),
    ensures
        spec_can_spell(a + b),
{
    assert forall|i: int| 0 <= i < (a + b).len() implies (#[trigger] (a + b)[i]) as int
        <= LAST_GLYPH by {
        if i < a.len() {
            assert((a + b)[i] == a[i]);
        } else {
            assert((a + b)[i] == b[i - a.len()]);
        }
    }
}

} // verus!

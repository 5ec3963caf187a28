//! The glyph table: a bitmap of five rows for each digit and for the colon.

use vstd::prelude::*;

verus! {

/// Rows in every glyph.
pub const GLYPH_HEIGHT: usize = 5;

/// Columns in the glyph of a digit.
pub const DIGIT_WIDTH: usize = 6;

/// Columns in the glyph of the colon.
pub const COLON_WIDTH: usize = 2;

/// Whether the table holds a glyph for `ch`: the ten digits and the colon.
pub open spec fn has_glyph(ch: char) -> bool {
    ('0' <= ch && ch <= '9') || ch == ':'
}

/// Whether `cells` is a bitmap of five rows of one width.
pub open spec fn is_bitmap(cells: Seq<Seq<bool>>) -> bool {
    &&& cells.len() == GLYPH_HEIGHT
    &&& forall|r: int| 0 <= r < cells.len() ==> #[trigger] cells[r].len() == cells[0].len()
}

/// One row of a digit: three strokes, each two cells wide.
pub open spec fn strokes(left: bool, middle: bool, right: bool) -> Seq<bool> {
    seq![left, left, middle, middle, right, right]
}

/// One row of the colon, lit or dark.
pub open spec fn dot(on: bool) -> Seq<bool> {
    seq![on, on]
}

/// The bitmap of `ch`, row by row from the top; `true` is a filled cell.
/// A character without a glyph has no rows.
pub open spec fn glyph_of(ch: char) -> Seq<Seq<bool>> {
    let x = true;
    let o = false;
    match ch {
        '0' => seq![strokes(x, x, x), strokes(x, o, x), strokes(x, o, x), strokes(x, o, x), strokes(x, x, x)],
        '1' => seq![strokes(o, x, o), strokes(x, x, o), strokes(o, x, o), strokes(o, x, o), strokes(x, x, x)],
        '2' => seq![strokes(x, x, x), strokes(o, o, x), strokes(x, x, x), strokes(x, o, o), strokes(x, x, x)],
        '3' => seq![strokes(x, x, x), strokes(o, o, x), strokes(x, x, x), strokes(o, o, x), strokes(x, x, x)],
        '4' => seq![strokes(x, o, x), strokes(x, o, x), strokes(x, x, x), strokes(o, o, x), strokes(o, o, x)],
        '5' => seq![strokes(x, x, x), strokes(x, o, o), strokes(x, x, x), strokes(o, o, x), strokes(x, x, x)],
        '6' => seq![strokes(x, x, x), strokes(x, o, o), strokes(x, x, x), strokes(x, o, x), strokes(x, x, x)],
        '7' => seq![strokes(x, x, x), strokes(o, o, x), strokes(o, o, x), strokes(o, o, x), strokes(o, o, x)],
        '8' => seq![strokes(x, x, x), strokes(x, o, x), strokes(x, x, x), strokes(x, o, x), strokes(x, x, x)],
        '9' => seq![strokes(x, x, x), strokes(x, o, x), strokes(x, x, x), strokes(o, o, x), strokes(x, x, x)],
        ':' => seq![dot(o), dot(x), dot(o), dot(x), dot(o)],
        _ => Seq::empty(),
    }
}

/// The width of the glyph of `ch`.
pub open spec fn glyph_width(ch: char) -> nat {
    if ch == ':' {
        COLON_WIDTH as nat
    } else {
        DIGIT_WIDTH as nat
    }
}

/// Every glyph in the table is a bitmap of five rows, six cells wide for
/// a digit and two for the colon.
pub proof fn lemma_glyph_shape(ch: char)
    requires
        has_glyph(ch),
    ensures
        is_bitmap(glyph_of(ch)),
        forall|r: int| 0 <= r < GLYPH_HEIGHT ==> #[trigger] glyph_of(ch)[r].len() == glyph_width(ch),
{
}

/// A bitmap of five rows of one width.
pub struct Glyph {
    rows: Vec<Vec<bool>>,
}

impl View for Glyph {
    type V = Seq<Seq<bool>>;

    closed spec fn view(&self) -> Seq<Seq<bool>> {
        Seq::new(self.rows.len() as nat, |r: int| self.rows[r]@)
    }
}

impl Glyph {
    #[verifier::type_invariant]
    spec fn shaped(&self) -> bool {
        is_bitmap(self@)
    }

    /// The number of columns.
    pub fn width(&self) -> (width: usize)
        ensures
            is_bitmap(self@),
            width == self@[0].len(),
    {
        proof {
            use_type_invariant(self);
        }
        self.rows[0].len()
    }

    /// Whether the cell in row `row`, column `col` is filled.
    pub fn cell(&self, row: usize, col: usize) -> (on: bool)
        requires
            row < self@.len(),
            col < self@[row as int].len(),
        ensures
            on == self@[row as int][col as int],
    {
        self.rows[row][col]
    }
}

fn digit_row(left: bool, middle: bool, right: bool) -> (row: Vec<bool>)
    ensures
        row@ == strokes(left, middle, right),
{
    vec![left, left, middle, middle, right, right]
}

fn colon_row(on: bool) -> (row: Vec<bool>)
    ensures
        row@ == dot(on),
{
    vec![on, on]
}

fn bitmap(r0: Vec<bool>, r1: Vec<bool>, r2: Vec<bool>, r3: Vec<bool>, r4: Vec<bool>) -> (glyph: Glyph)
    requires
        r1.len() == r0.len(),
        r2.len() == r0.len(),
        r3.len() == r0.len(),
        r4.len() == r0.len(),
    ensures
        glyph@ == seq![r0@, r1@, r2@, r3@, r4@],
{
    let glyph = Glyph { rows: vec![r0, r1, r2, r3, r4] };
    assert(glyph@ =~= seq![r0@, r1@, r2@, r3@, r4@]);
    glyph
}

/// Looks `ch` up in the glyph table. Only the ten digits and the colon
/// have a glyph.
pub fn digit(ch: char) -> (glyph: Option<Glyph>)
    ensures
        glyph is Some <==> has_glyph(ch),
        glyph matches Some(g) ==> g@ == glyph_of(ch),
{
    let x = true;
    let o = false;
    match ch {
        '0' => Some(bitmap(digit_row(x, x, x), digit_row(x, o, x), digit_row(x, o, x), digit_row(x, o, x), digit_row(x, x, x))),
        '1' => Some(bitmap(digit_row(o, x, o), digit_row(x, x, o), digit_row(o, x, o), digit_row(o, x, o), digit_row(x, x, x))),
        '2' => Some(bitmap(digit_row(x, x, x), digit_row(o, o, x), digit_row(x, x, x), digit_row(x, o, o), digit_row(x, x, x))),
        '3' => Some(bitmap(digit_row(x, x, x), digit_row(o, o, x), digit_row(x, x, x), digit_row(o, o, x), digit_row(x, x, x))),
        '4' => Some(bitmap(digit_row(x, o, x), digit_row(x, o, x), digit_row(x, x, x), digit_row(o, o, x), digit_row(o, o, x))),
        '5' => Some(bitmap(digit_row(x, x, x), digit_row(x, o, o), digit_row(x, x, x), digit_row(o, o, x), digit_row(x, x, x))),
        '6' => Some(bitmap(digit_row(x, x, x), digit_row(x, o, o), digit_row(x, x, x), digit_row(x, o, x), digit_row(x, x, x))),
        '7' => Some(bitmap(digit_row(x, x, x), digit_row(o, o, x), digit_row(o, o, x), digit_row(o, o, x), digit_row(o, o, x))),
        '8' => Some(bitmap(digit_row(x, x, x), digit_row(x, o, x), digit_row(x, x, x), digit_row(x, o, x), digit_row(x, x, x))),
        '9' => Some(bitmap(digit_row(x, x, x), digit_row(x, o, x), digit_row(x, x, x), digit_row(o, o, x), digit_row(x, x, x))),
        ':' => Some(bitmap(colon_row(o), colon_row(x), colon_row(o), colon_row(x), colon_row(o))),
        _ => None,
    }
}

} // verus!

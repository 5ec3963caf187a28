//! The colors that the timer can be drawn in, and their names.

use vstd::prelude::*;

verus! {

/// A named color of the terminal.
#[derive(Clone, Copy, Debug, PartialEq, Eq, Structural)]
pub enum Color {
    /// Black.
    Black,
    /// White.
    White,
    /// Red.
    Red,
    /// Green.
    Green,
    /// Yellow.
    Yellow,
    /// Blue.
    Blue,
    /// Magenta.
    Magenta,
    /// Cyan.
    Cyan,
    /// Dark gray.
    DarkGray,
    /// Light red.
    LightRed,
    /// Light green.
    LightGreen,
    /// Light yellow.
    LightYellow,
    /// Light blue, the color of the timer unless another is asked for.
    LightBlue,
    /// Light magenta.
    LightMagenta,
    /// Light cyan.
    LightCyan,
}

/// The number of named colors.
pub const COLOR_COUNT: usize = 15;

/// `str`'s `==` holds of two strings exactly when they have the same
/// characters.
pub assume_specification[ <str as PartialEq>::eq ](a: &str, b: &str) -> (same: bool)
    ensures
        same == (a@ == b@),
;

impl Color {
    /// The color's name: its variant's name in lower case.
    pub open spec fn name_of(self) -> Seq<char> {
        match self {
            Color::Black => "black"@,
            Color::White => "white"@,
            Color::Red => "red"@,
            Color::Green => "green"@,
            Color::Yellow => "yellow"@,
            Color::Blue => "blue"@,
            Color::Magenta => "magenta"@,
            Color::Cyan => "cyan"@,
            Color::DarkGray => "darkgray"@,
            Color::LightRed => "lightred"@,
            Color::LightGreen => "lightgreen"@,
            Color::LightYellow => "lightyellow"@,
            Color::LightBlue => "lightblue"@,
            Color::LightMagenta => "lightmagenta"@,
            Color::LightCyan => "lightcyan"@,
        }
    }

    /// The color's name.
    pub fn name(self) -> (name: &'static str)
        ensures
            name@ == self.name_of(),
    {
        match self {
            Color::Black => "black",
            Color::White => "white",
            Color::Red => "red",
            Color::Green => "green",
            Color::Yellow => "yellow",
            Color::Blue => "blue",
            Color::Magenta => "magenta",
            Color::Cyan => "cyan",
            Color::DarkGray => "darkgray",
            Color::LightRed => "lightred",
            Color::LightGreen => "lightgreen",
            Color::LightYellow => "lightyellow",
            Color::LightBlue => "lightblue",
            Color::LightMagenta => "lightmagenta",
            Color::LightCyan => "lightcyan",
        }
    }
}

/// The colors in the order in which they are listed.
pub open spec fn palette() -> Seq<Color> {
    seq![
        Color::Black,
        Color::White,
        Color::Red,
        Color::Green,
        Color::Yellow,
        Color::Blue,
        Color::Magenta,
        Color::Cyan,
        Color::DarkGray,
        Color::LightRed,
        Color::LightGreen,
        Color::LightYellow,
        Color::LightBlue,
        Color::LightMagenta,
        Color::LightCyan,
    ]
}

/// The colors in the order in which they are listed.
pub fn colors() -> (all: [Color; 15])
    ensures
        all@ == palette(),
{
    let all = [
        Color::Black,
        Color::White,
        Color::Red,
        Color::Green,
        Color::Yellow,
        Color::Blue,
        Color::Magenta,
        Color::Cyan,
        Color::DarkGray,
        Color::LightRed,
        Color::LightGreen,
        Color::LightYellow,
        Color::LightBlue,
        Color::LightMagenta,
        Color::LightCyan,
    ];
    assert(all@ =~= palette());
    all
}

/// The first color of `palette()[from..]` whose name is `input`, and
/// light blue if there is none.
pub open spec fn color_from(input: Seq<char>, from: int) -> Color
    decreases palette().len() - from,
{
    if from < 0 || from >= palette().len() {
        Color::LightBlue
    } else if palette()[from].name_of() == input {
        palette()[from]
    } else {
        color_from(input, from + 1)
    }
}

/// The color that `input` names, and light blue if it names none.
pub open spec fn color_of(input: Seq<char>) -> Color {
    color_from(input, 0)
}

/// The color that `input` names. A text that is no color's name, in
/// lower case, gives light blue.
pub fn color(input: &str) -> (found: Color)
    ensures
        found == color_of(input@),
{
    let all = colors();
    let mut i: usize = 0;
    while i < all.len()
        invariant
            i <= all@.len(),
            all@ == palette(),
            color_of(input@) == color_from(input@, i as int),
        decreases all@.len() - i,
    {
        if *input == *all[i].name() {
            return all[i];
        }
        i += 1;
    }
    Color::LightBlue
}

/// No two colors have the same name.
pub proof fn lemma_names_differ(a: Color, b: Color)
    requires
        a != b,
    ensures
        a.name_of() != b.name_of(),
{
    reveal_strlit("black");
    reveal_strlit("white");
    reveal_strlit("red");
    reveal_strlit("green");
    reveal_strlit("yellow");
    reveal_strlit("blue");
    reveal_strlit("magenta");
    reveal_strlit("cyan");
    reveal_strlit("darkgray");
    reveal_strlit("lightred");
    reveal_strlit("lightgreen");
    reveal_strlit("lightyellow");
    reveal_strlit("lightblue");
    reveal_strlit("lightmagenta");
    reveal_strlit("lightcyan");
    let (m, n) = (a.name_of(), b.name_of());
    if m.len() == n.len() && m[0] == n[0] {
        assert(m[5] != n[5]);
    }
}

/// Every color is found by its own name.
pub proof fn lemma_color_of_own_name(c: Color)
    ensures
        color_of(c.name_of()) == c,
{
    reveal_with_fuel(color_from, 16);
    assert forall|i: int| 0 <= i < palette().len() && palette()[i] != c implies #[trigger] palette()[i].name_of()
        != c.name_of() by {
        lemma_names_differ(palette()[i], c);
    }
}

} // verus!

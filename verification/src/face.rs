//! The face of the clock: how numbers are written as characters, and how
//! a line of characters is drawn as five rows of block text.

use vstd::prelude::*;
use crate::digit::{glyph_of, glyph_width, has_glyph, lemma_glyph_shape, GLYPH_HEIGHT};

verus! {

/// The character drawn for a filled cell.
pub const FILLED: char = '\u{2588}';

/// The character drawn for an empty cell, and between two glyphs.
pub const BLANK: char = ' ';

/// The character of the decimal digit `d`, for `d` below ten.
pub open spec fn digit_char(d: nat) -> char {
    ('0' as nat + d) as char
}

/// `n` in decimal, without leading zeros; zero is written `0`.
pub open spec fn decimal(n: nat) -> Seq<char>
    decreases n,
{
    if n < 10 {
        seq![digit_char(n)]
    } else {
        decimal(n / 10).push(digit_char(n % 10))
    }
}

/// `n` in decimal with at least two digits: a number below ten gets a
/// leading zero.
pub open spec fn two_digits(n: nat) -> Seq<char> {
    if n < 10 {
        seq!['0', digit_char(n)]
    } else {
        decimal(n)
    }
}

/// Whether every character of `chars` has a glyph.
pub open spec fn drawable(chars: Seq<char>) -> bool {
    forall|i: int| 0 <= i < chars.len() ==> has_glyph(#[trigger] chars[i])
}

/// The character that stands for a cell.
pub open spec fn cell_char(on: bool) -> char {
    if on {
        FILLED
    } else {
        BLANK
    }
}

/// Row `r` of the glyph of `ch` as text.
pub open spec fn glyph_text(ch: char, r: int) -> Seq<char> {
    Seq::new(glyph_of(ch)[r].len(), |c: int| cell_char(glyph_of(ch)[r][c]))
}

/// Row `r` of `chars` drawn as block text: the rows of their glyphs,
/// with one blank between two neighbors and none at either end.
pub open spec fn banner_row(chars: Seq<char>, r: int) -> Seq<char>
    decreases chars.len(),
{
    if chars.len() == 0 {
        Seq::empty()
    } else if chars.len() == 1 {
        glyph_text(chars[0], r)
    } else {
        banner_row(chars.drop_last(), r) + seq![BLANK] + glyph_text(chars.last(), r)
    }
}

/// The number of columns that `chars` take when drawn: the widths of
/// their glyphs and one blank between two neighbors.
pub open spec fn banner_width(chars: Seq<char>) -> nat
    decreases chars.len(),
{
    if chars.len() == 0 {
        0
    } else if chars.len() == 1 {
        glyph_width(chars[0])
    } else {
        banner_width(chars.drop_last()) + 1 + glyph_width(chars.last())
    }
}

/// A number written in decimal has at least one digit, and each of its
/// characters is a digit.
pub proof fn lemma_decimal_digits(n: nat)
    ensures
        decimal(n).len() >= 1,
        n < 10 <==> decimal(n).len() == 1,
        forall|i: int| 0 <= i < decimal(n).len() ==> '0' <= #[trigger] decimal(n)[i] <= '9',
        drawable(decimal(n)),
    decreases n,
{
    if n >= 10 {
        lemma_decimal_digits(n / 10);
    }
}

/// A number written with two digits has at least two characters, exactly
/// two below a hundred, and each of them is a digit.
pub proof fn lemma_two_digits(n: nat)
    ensures
        two_digits(n).len() >= 2,
        n < 100 ==> two_digits(n).len() == 2,
        n < 100 ==> two_digits(n) == seq![digit_char(n / 10), digit_char(n % 10)],
        drawable(two_digits(n)),
{
    lemma_decimal_digits(n);
    if n >= 10 {
        lemma_decimal_digits(n / 10);
        if n < 100 {
            assert(decimal(n / 10) == seq![digit_char(n / 10)]);
            assert(two_digits(n) =~= seq![digit_char(n / 10), digit_char(n % 10)]);
        }
    } else {
        assert(n / 10 == 0);
    }
}

/// Drawing two lines of characters one after the other, with a blank
/// between them, draws their concatenation.
pub proof fn lemma_banner_row_concat(a: Seq<char>, b: Seq<char>, r: int)
    requires
        a.len() > 0,
        b.len() > 0,
    ensures
        banner_row(a + b, r) == banner_row(a, r) + seq![BLANK] + banner_row(b, r),
    decreases b.len(),
{
    let ab = a + b;
    assert(ab.last() == b.last());
    if b.len() == 1 {
        assert(ab.drop_last() =~= a);
    } else {
        assert(ab.drop_last() =~= a + b.drop_last());
        lemma_banner_row_concat(a, b.drop_last(), r);
        assert(banner_row(ab, r) =~= banner_row(a, r) + seq![BLANK] + banner_row(b, r));
    }
}

/// Each of the five rows of a drawn line has the same length: the
/// line's width.
pub proof fn lemma_banner_row_len(chars: Seq<char>, r: int)
    requires
        drawable(chars),
        0 <= r < GLYPH_HEIGHT,
    ensures
        banner_row(chars, r).len() == banner_width(chars),
    decreases chars.len(),
{
    if chars.len() >= 1 {
        lemma_glyph_shape(chars.last());
        if chars.len() >= 2 {
            lemma_banner_row_len(chars.drop_last(), r);
        }
    }
}

/// `std::string::String::push` puts the character at the end of the
/// string and leaves what was there as it was.
pub assume_specification[ String::push ](s: &mut String, ch: char)
    ensures
        final(s)@ == old(s)@.push(ch),
;

/// Writes `n` in decimal at the end of `out`.
pub fn push_decimal(n: u64, out: &mut Vec<char>)
    ensures
        final(out)@ == old(out)@ + decimal(n as nat),
    decreases n,
{
    if n >= 10 {
        push_decimal(n / 10, out);
    }
    let d: u8 = (n % 10) as u8;
    out.push((48u8 + d) as char);
    assert(final(out)@ =~= old(out)@ + decimal(n as nat));
}

/// `n` in decimal, without leading zeros.
pub fn decimal_chars(n: u64) -> (digits: Vec<char>)
    ensures
        digits@ == decimal(n as nat),
{
    let mut digits: Vec<char> = Vec::new();
    push_decimal(n, &mut digits);
    digits
}

/// `n` in decimal with at least two digits.
pub fn two_digit_chars(n: u64) -> (digits: Vec<char>)
    ensures
        digits@ == two_digits(n as nat),
{
    let mut digits: Vec<char> = Vec::new();
    if n < 10 {
        digits.push('0');
    }
    push_decimal(n, &mut digits);
    digits
}

/// The characters of `chars` as a string.
pub fn string_of(chars: &Vec<char>) -> (text: String)
    ensures
        text@ == chars@,
{
    let mut text = String::new();
    let mut i: usize = 0;
    while i < chars.len()
        invariant
            i <= chars.len(),
            text@ == chars@.take(i as int),
        decreases chars.len() - i,
    {
        text.push(chars[i]);
        i += 1;
        assert(chars@.take(i as int) =~= chars@.take(i - 1).push(chars@[i - 1]));
    }
    assert(chars@.take(i as int) =~= chars@);
    text
}

} // verus!

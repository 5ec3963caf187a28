use cdown::digit::{digit, COLON_WIDTH, DIGIT_WIDTH, GLYPH_HEIGHT};

fn picture(ch: char) -> Vec<String> {
    let glyph = digit(ch).unwrap();
    (0..GLYPH_HEIGHT)
        .map(|row| (0..glyph.width()).map(|col| if glyph.cell(row, col) { '#' } else { '.' }).collect())
        .collect()
}

#[test]
fn every_digit_and_the_colon_have_a_glyph() {
    for ch in "0123456789:".chars() {
        assert!(digit(ch).is_some());
    }
}

#[test]
fn no_other_character_has_a_glyph() {
    for ch in ['/', ';', ' ', 'a', 'q', '-', '.', '\u{0}', '\u{2588}', '\u{0661}', '\u{ff11}'] {
        assert!(digit(ch).is_none());
    }
}

#[test]
fn digits_are_six_cells_wide_and_the_colon_two() {
    assert_eq!(GLYPH_HEIGHT, 5);
    for ch in "0123456789".chars() {
        assert_eq!(digit(ch).unwrap().width(), DIGIT_WIDTH);
    }
    assert_eq!(digit(':').unwrap().width(), COLON_WIDTH);
    assert_eq!(DIGIT_WIDTH, 6);
    assert_eq!(COLON_WIDTH, 2);
}

#[test]
fn glyphs_of_the_digits() {
    assert_eq!(picture('0'), ["######", "##..##", "##..##", "##..##", "######"]);
    assert_eq!(picture('1'), ["..##..", "####..", "..##..", "..##..", "######"]);
    assert_eq!(picture('2'), ["######", "....##", "######", "##....", "######"]);
    assert_eq!(picture('3'), ["######", "....##", "######", "....##", "######"]);
    assert_eq!(picture('4'), ["##..##", "##..##", "######", "....##", "....##"]);
    assert_eq!(picture('5'), ["######", "##....", "######", "....##", "######"]);
    assert_eq!(picture('6'), ["######", "##....", "######", "##..##", "######"]);
    assert_eq!(picture('7'), ["######", "....##", "....##", "....##", "....##"]);
    assert_eq!(picture('8'), ["######", "##..##", "######", "##..##", "######"]);
    assert_eq!(picture('9'), ["######", "##..##", "######", "....##", "######"]);
}

#[test]
fn glyph_of_the_colon() {
    assert_eq!(picture(':'), ["..", "##", "..", "##", ".."]);
}

#[test]
fn no_two_glyphs_are_the_same() {
    let all: Vec<Vec<String>> = "0123456789:".chars().map(picture).collect();
    for i in 0..all.len() {
        for j in 0..i {
            assert_ne!(all[i], all[j]);
        }
    }
}

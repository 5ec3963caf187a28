use cdown::color::{color, colors, Color, COLOR_COUNT};

#[test]
fn every_name_gives_its_color() {
    assert_eq!(color("black"), Color::Black);
    assert_eq!(color("white"), Color::White);
    assert_eq!(color("red"), Color::Red);
    assert_eq!(color("green"), Color::Green);
    assert_eq!(color("yellow"), Color::Yellow);
    assert_eq!(color("blue"), Color::Blue);
    assert_eq!(color("magenta"), Color::Magenta);
    assert_eq!(color("cyan"), Color::Cyan);
    assert_eq!(color("darkgray"), Color::DarkGray);
    assert_eq!(color("lightred"), Color::LightRed);
    assert_eq!(color("lightgreen"), Color::LightGreen);
    assert_eq!(color("lightyellow"), Color::LightYellow);
    assert_eq!(color("lightblue"), Color::LightBlue);
    assert_eq!(color("lightmagenta"), Color::LightMagenta);
    assert_eq!(color("lightcyan"), Color::LightCyan);
}

#[test]
fn an_unknown_name_gives_light_blue() {
    assert_eq!(color(""), Color::LightBlue);
    assert_eq!(color("orange"), Color::LightBlue);
    assert_eq!(color("Red"), Color::LightBlue);
    assert_eq!(color("red "), Color::LightBlue);
    assert_eq!(color("darkgrey"), Color::LightBlue);
    assert_eq!(color("light blue"), Color::LightBlue);
}

#[test]
fn colors_are_listed_in_order() {
    let names: Vec<&str> = colors().iter().map(|c| c.name()).collect();
    assert_eq!(
        names,
        [
            "black",
            "white",
            "red",
            "green",
            "yellow",
            "blue",
            "magenta",
            "cyan",
            "darkgray",
            "lightred",
            "lightgreen",
            "lightyellow",
            "lightblue",
            "lightmagenta",
            "lightcyan",
        ]
    );
    assert_eq!(names.len(), COLOR_COUNT);
}

#[test]
fn every_color_is_found_by_its_name() {
    for c in colors() {
        assert_eq!(color(c.name()), c);
    }
}

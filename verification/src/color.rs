use vstd::prelude::*;

verus! {

/// The seven semantic colors the window draws with.  Each one is registered
/// as a terminal color pair (with the terminal's default background) when the
/// window is constructed.
#[derive(Clone, Copy, PartialEq, Eq, Debug)]
pub enum Color {
    White,
    Yellow,
    Blue,
    Green,
    Cyan,
    Magenta,
    Red,
}

/// The color-pair index each color is registered under at startup.
pub open spec fn color_pair_index(c: Color) -> int {
    match c {
        Color::White => 0,
        Color::Yellow => 1,
        Color::Blue => 2,
        Color::Green => 3,
        Color::Cyan => 4,
        Color::Magenta => 5,
        Color::Red => 6,
    }
}

/// The color registered under a given pair index; inverse of
/// `color_pair_index`.
pub open spec fn pair_color(i: int) -> Color {
    if i == 0 {
        Color::White
    } else if i == 1 {
        Color::Yellow
    } else if i == 2 {
        Color::Blue
    } else if i == 3 {
        Color::Green
    } else if i == 4 {
        Color::Cyan
    } else if i == 5 {
        Color::Magenta
    } else {
        Color::Red
    }
}

/// Executable lookup of the pair index for a color.
pub fn color_pair(c: &Color) -> (r: u8)
    ensures
        r as int == color_pair_index(*c),
{
    match *c {
        Color::White => 0,
        Color::Yellow => 1,
        Color::Blue => 2,
        Color::Green => 3,
        Color::Cyan => 4,
        Color::Magenta => 5,
        Color::Red => 6,
    }
}

/// Executable lookup of the color registered under a pair index.
pub fn index_color(i: u8) -> (r: Color)
    requires
        i < 7,
    ensures
        r == pair_color(i as int),
{
    if i == 0 {
        Color::White
    } else if i == 1 {
        Color::Yellow
    } else if i == 2 {
        Color::Blue
    } else if i == 3 {
        Color::Green
    } else if i == 4 {
        Color::Cyan
    } else if i == 5 {
        Color::Magenta
    } else {
        Color::Red
    }
}

} // verus!

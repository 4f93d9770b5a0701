//! Plain values handed to whatever draws the game: colours and the shapes of
//! one frame, in whole pixels.

use vstd::prelude::*;

verus! {

/// A colour by its red, green and blue parts.
#[derive(Clone, Copy, Debug, PartialEq, Eq, Structural)]
pub struct Color {
    pub r: u8,
    pub g: u8,
    pub b: u8,
}

impl Color {
    /// The colour with the given parts.
    pub fn rgb(r: u8, g: u8, b: u8) -> (c: Color)
        ensures
            c == (Color { r, g, b }),
    {
        Color { r, g, b }
    }
}

/// A filled circle: centre and radius in pixels.
#[derive(Clone, Copy, Debug, PartialEq, Eq, Structural)]
pub struct Disc {
    pub cx: i16,
    pub cy: i16,
    pub radius: i16,
    pub color: Color,
}

/// A filled rectangle: top-left corner and extent in pixels.
#[derive(Clone, Copy, Debug, PartialEq, Eq, Structural)]
pub struct Tile {
    pub x: i32,
    pub y: i32,
    pub width: u32,
    pub height: u32,
    pub color: Color,
}

/// Everything that one frame shows, in drawing order: the background is
/// cleared first, the ball is drawn next, the two paddles last.
#[derive(Clone, Copy, Debug, PartialEq, Eq, Structural)]
pub struct Scene {
    pub background: Color,
    pub ball: Disc,
    pub left: Tile,
    pub right: Tile,
}

} // verus!

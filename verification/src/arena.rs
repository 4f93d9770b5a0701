//! The rectangular play boundary.

use vstd::prelude::*;
use crate::scene::Color;

verus! {

/// What an arena is to the contracts: its colour and its extent in length
/// units. The play boundary runs from `0` to `width` and from `0` to `height`.
pub struct ArenaView {
    pub color: Color,
    pub width: int,
    pub height: int,
}

impl ArenaView {
    /// Both extents are positive.
    pub open spec fn wf(self) -> bool {
        self.width > 0 && self.height > 0
    }
}

/// The play boundary of one game. It never changes once made.
#[derive(Clone, Copy, Debug)]
pub struct Arena {
    color: Color,
    width: i32,
    height: i32,
}

impl View for Arena {
    type V = ArenaView;

    closed spec fn view(&self) -> ArenaView {
        ArenaView { color: self.color, width: self.width as int, height: self.height as int }
    }
}

impl Arena {
    /// Validity of the value: that of its view.
    pub open spec fn wf(&self) -> bool {
        self@.wf()
    }

    /// An arena of the given colour and extent, where both extents are
    /// positive; `None` for any other extent.
    pub fn new(color: Color, width: i32, height: i32) -> (r: Option<Arena>)
        ensures
            r.is_some() <==> width > 0 && height > 0,
            r matches Some(a) ==> a.wf() && a@ == (ArenaView {
                color,
                width: width as int,
                height: height as int,
            }),
    {
        if width > 0 && height > 0 {
            Some(Arena { color, width, height })
        } else {
            None
        }
    }

    /// Both extents of a stored arena are within the range of their machine
    /// type.
    pub proof fn lemma_in_range(&self)
        ensures
            i32::MIN <= self@.width <= i32::MAX,
            i32::MIN <= self@.height <= i32::MAX,
    {
    }

    /// The background colour.
    pub fn color(&self) -> (c: Color)
        ensures
            c == self@.color,
    {
        self.color
    }

    /// The horizontal extent.
    pub fn width(&self) -> (w: i32)
        ensures
            w == self@.width,
    {
        self.width
    }

    /// The vertical extent.
    pub fn height(&self) -> (h: i32)
        ensures
            h == self@.height,
    {
        self.height
    }
}

} // verus!

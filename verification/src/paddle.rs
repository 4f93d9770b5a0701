//! The paddles: rectangles at a fixed `x` that move up and down.

use vstd::prelude::*;
use crate::scene::Color;

verus! {

/// What a paddle is to the contracts. `x` and `y` are its top-left corner.
pub struct PaddleView {
    pub color: Color,
    pub x: int,
    pub y: int,
    pub width: int,
    pub height: int,
    pub speed: int,
    pub vy: int,
    pub score: nat,
}

impl PaddleView {
    /// Extent and speed are positive.
    pub open spec fn wf(self) -> bool {
        self.width > 0 && self.height > 0 && self.speed > 0
    }

    /// The same paddle with its top edge at `y`.
    pub open spec fn at(self, y: int) -> PaddleView {
        PaddleView { y, ..self }
    }
}

/// One of the two paddles of a game.
#[derive(Clone, Copy, Debug)]
pub struct Paddle {
    color: Color,
    x: i32,
    y: i32,
    width: i32,
    height: i32,
    speed: i32,
    vy: i32,
    score: u32,
}

impl View for Paddle {
    type V = PaddleView;

    closed spec fn view(&self) -> PaddleView {
        PaddleView {
            color: self.color,
            x: self.x as int,
            y: self.y as int,
            width: self.width as int,
            height: self.height as int,
            speed: self.speed as int,
            vy: self.vy as int,
            score: self.score as nat,
        }
    }
}

impl Paddle {
    /// Validity of the value: that of its view.
    pub open spec fn wf(&self) -> bool {
        self@.wf()
    }

    /// A paddle with the given fields, where extent and speed are positive;
    /// `None` where one of them is not.
    pub fn new(
        color: Color,
        x: i32,
        y: i32,
        width: i32,
        height: i32,
        speed: i32,
        vy: i32,
        score: u32,
    ) -> (r: Option<Paddle>)
        ensures
            r.is_some() <==> width > 0 && height > 0 && speed > 0,
            r matches Some(p) ==> p.wf() && p@ == (PaddleView {
                color,
                x: x as int,
                y: y as int,
                width: width as int,
                height: height as int,
                speed: speed as int,
                vy: vy as int,
                score: score as nat,
            }),
    {
        if width > 0 && height > 0 && speed > 0 {
            Some(Paddle { color, x, y, width, height, speed, vy, score })
        } else {
            None
        }
    }

    /// Every field of a stored paddle is within the range of its machine
    /// type.
    pub proof fn lemma_in_range(&self)
        ensures
            i32::MIN <= self@.x <= i32::MAX,
            i32::MIN <= self@.y <= i32::MAX,
            i32::MIN <= self@.width <= i32::MAX,
            i32::MIN <= self@.height <= i32::MAX,
            i32::MIN <= self@.speed <= i32::MAX,
            i32::MIN <= self@.vy <= i32::MAX,
            self@.score <= u32::MAX,
    {
    }

    /// The same paddle with its top edge at `y`.
    pub(crate) fn at(&self, y: i32) -> (p: Paddle)
        requires
            self.wf(),
        ensures
            p.wf(),
            p@ == self@.at(y as int),
    {
        Paddle { y, ..*self }
    }

    /// The colour.
    pub fn color(&self) -> (c: Color)
        ensures
            c == self@.color,
    {
        self.color
    }

    /// The left edge.
    pub fn x(&self) -> (v: i32)
        ensures
            v == self@.x,
    {
        self.x
    }

    /// The top edge.
    pub fn y(&self) -> (v: i32)
        ensures
            v == self@.y,
    {
        self.y
    }

    /// The horizontal extent.
    pub fn width(&self) -> (v: i32)
        ensures
            v == self@.width,
    {
        self.width
    }

    /// The vertical extent.
    pub fn height(&self) -> (v: i32)
        ensures
            v == self@.height,
    {
        self.height
    }

    /// The fastest that the paddle may be moved, per second.
    pub fn speed(&self) -> (v: i32)
        ensures
            v == self@.speed,
    {
        self.speed
    }

    /// The vertical velocity.
    pub fn vy(&self) -> (v: i32)
        ensures
            v == self@.vy,
    {
        self.vy
    }

    /// The points scored on this side.
    pub fn score(&self) -> (v: u32)
        ensures
            v == self@.score,
    {
        self.score
    }
}

} // verus!

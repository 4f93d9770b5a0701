//! Directions off the horizontal, as the cosine and sine of an angle.
//!
//! The library never evaluates a trigonometric function itself: whoever calls
//! it supplies the heading that belongs to an angle.

use vstd::prelude::*;
use crate::units::HEADING_SCALE;

verus! {

/// What a heading is to the contracts: cosine and sine, each scaled by
/// `HEADING_SCALE`.
pub struct HeadingView {
    pub cos: int,
    pub sin: int,
}

impl HeadingView {
    /// Neither part is negative, and the vector is of length one as nearly
    /// as rounding both parts down allows: it is no longer than one, and its
    /// square falls short of one by no more than three parts in
    /// `HEADING_SCALE`.
    pub open spec fn wf(self) -> bool {
        &&& 0 <= self.cos
        &&& 0 <= self.sin
        &&& self.cos * self.cos + self.sin * self.sin <= HEADING_SCALE * HEADING_SCALE
        &&& self.cos * self.cos + self.sin * self.sin >= HEADING_SCALE * HEADING_SCALE - 3
            * HEADING_SCALE
    }
}

/// The direction that belongs to an angle between zero and a quarter turn.
#[derive(Clone, Copy, Debug)]
pub struct Heading {
    cos: u64,
    sin: u64,
}

impl View for Heading {
    type V = HeadingView;

    closed spec fn view(&self) -> HeadingView {
        HeadingView { cos: self.cos as int, sin: self.sin as int }
    }
}

impl Heading {
    /// Validity of the value: that of its view.
    pub open spec fn wf(&self) -> bool {
        self@.wf()
    }

    /// The heading with the given scaled cosine and sine, where the two
    /// describe a vector of length one as nearly as rounding down allows;
    /// `None` for a longer or a shorter one.
    pub fn new(cos: u64, sin: u64) -> (r: Option<Heading>)
        ensures
            r.is_some() <==> (HeadingView { cos: cos as int, sin: sin as int }).wf(),
            r matches Some(h) ==> h.wf() && h@ == (HeadingView {
                cos: cos as int,
                sin: sin as int,
            }),
    {
        if cos > HEADING_SCALE || sin > HEADING_SCALE {
            assert(cos * cos + sin * sin > HEADING_SCALE * HEADING_SCALE) by (nonlinear_arith)
                requires
                    cos > HEADING_SCALE || sin > HEADING_SCALE,
                    cos >= 0,
                    sin >= 0,
                    HEADING_SCALE > 0,
            ;
            return None;
        }
        let c: u128 = cos as u128;
        let s: u128 = sin as u128;
        let unit: u128 = HEADING_SCALE as u128;
        assert(c * c <= unit * unit && s * s <= unit * unit && unit * unit
            == 100_000_000_000_000_000_000) by (nonlinear_arith)
            requires
                0 <= c <= unit,
                0 <= s <= unit,
                unit == 10_000_000_000,
        ;
        let length: u128 = c * c + s * s;
        if length <= unit * unit && length >= unit * unit - 3 * unit {
            Some(Heading { cos, sin })
        } else {
            None
        }
    }

    /// The heading of angle zero: straight along the horizontal.
    pub fn level() -> (h: Heading)
        ensures
            h.wf(),
            h@ == (HeadingView { cos: HEADING_SCALE as int, sin: 0 }),
    {
        Heading { cos: HEADING_SCALE, sin: 0 }
    }

    /// The scaled cosine.
    pub fn cos(&self) -> (c: u64)
        ensures
            c == self@.cos,
    {
        self.cos
    }

    /// The scaled sine.
    pub fn sin(&self) -> (s: u64)
        ensures
            s == self@.sin,
    {
        self.sin
    }
}

} // verus!

//! The glyphs that the animations show.

use vstd::prelude::*;
use crate::scan::Image;

verus! {

/// One LED in the middle.
pub const MID_DOT: Image = [
    [0, 0, 0, 0, 0],
    [0, 0, 0, 0, 0],
    [0, 0, 0xff, 0, 0],
    [0, 0, 0, 0, 0],
    [0, 0, 0, 0, 0],
];

pub const LITTLE_HEART: Image = [
    [0, 0, 0, 0, 0],
    [0, 0xff, 0, 0xff, 0],
    [0, 0xff, 0xff, 0xff, 0],
    [0, 0, 0xff, 0, 0],
    [0, 0, 0, 0, 0],
];

pub const HEART: Image = [
    [0, 0xff, 0, 0xff, 0],
    [0xff, 0xff, 0xff, 0xff, 0xff],
    [0xff, 0xff, 0xff, 0xff, 0xff],
    [0, 0xff, 0xff, 0xff, 0],
    [0, 0, 0xff, 0, 0],
];

/// Every LED out.
pub const CLEAR: Image = [
    [0, 0, 0, 0, 0],
    [0, 0, 0, 0, 0],
    [0, 0, 0, 0, 0],
    [0, 0, 0, 0, 0],
    [0, 0, 0, 0, 0],
];

pub const HAPPY: Image = [
    [0, 0, 0, 0, 0],
    [0, 0xff, 0, 0xff, 0],
    [0, 0, 0, 0, 0],
    [0xff, 0, 0, 0, 0xff],
    [0, 0xff, 0xff, 0xff, 0],
];

pub const SAD: Image = [
    [0, 0, 0, 0, 0],
    [0, 0xff, 0, 0xff, 0],
    [0, 0, 0, 0, 0],
    [0, 0xff, 0xff, 0xff, 0],
    [0xff, 0, 0, 0, 0xff],
];

pub const GHOST: Image = [
    [0, 0xff, 0xff, 0xff, 0],
    [0xff, 0, 0xff, 0, 0xff],
    [0xff, 0xff, 0xff, 0xff, 0xff],
    [0xff, 0xff, 0xff, 0xff, 0xff],
    [0xff, 0, 0xff, 0, 0xff],
];

/// A glyph that a state of the animation shows.
#[derive(Clone, Copy, Debug, PartialEq, Eq, Structural)]
pub enum Glyph {
    MidDot,
    LittleHeart,
    Heart,
    Clear,
    Happy,
    Sad,
    Phantom,
}

/// The image of a glyph.
pub open spec fn glyph_image(g: Glyph) -> Image {
    match g {
        Glyph::MidDot => MID_DOT,
        Glyph::LittleHeart => LITTLE_HEART,
        Glyph::Heart => HEART,
        Glyph::Clear => CLEAR,
        Glyph::Happy => HAPPY,
        Glyph::Sad => SAD,
        Glyph::Phantom => GHOST,
    }
}

impl Glyph {
    /// The image of this glyph.
    pub fn image(&self) -> (r: Image)
        ensures
            r == glyph_image(*self),
    {
        match self {
            Glyph::MidDot => MID_DOT,
            Glyph::LittleHeart => LITTLE_HEART,
            Glyph::Heart => HEART,
            Glyph::Clear => CLEAR,
            Glyph::Happy => HAPPY,
            Glyph::Sad => SAD,
            Glyph::Phantom => GHOST,
        }
    }
}

} // verus!

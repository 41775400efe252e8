//! The options that set up the view of a newly opened image.

use vstd::prelude::*;

verus! {

/// How an image is scaled against the window when it is opened.
#[derive(Clone, Copy, PartialEq, Eq, Structural, Debug)]
pub enum Scaling {
    /// No scaling (the zoom stays at 1)
    NoScaling,
    /// Fit the width of the image to the width of the window
    FitWidth,
    /// Fit the height of the image to the height of the window
    FitHeight,
    /// Fit the whole image within the window
    FitImage,
}

impl Default for Scaling {
    fn default() -> (r: Self)
        ensures
            r == Scaling::NoScaling,
    {
        Scaling::NoScaling
    }
}

/// Where an image is placed in the window when it is opened.
#[derive(Clone, Copy, PartialEq, Eq, Structural, Debug)]
pub struct Align {
    pub x: AlignX,
    pub y: AlignY,
}

impl Default for Align {
    fn default() -> (r: Self)
        ensures
            r == (Align { x: AlignX::Left, y: AlignY::Top }),
    {
        Align { x: AlignX::Left, y: AlignY::Top }
    }
}

/// Horizontal placement.
#[derive(Clone, Copy, PartialEq, Eq, Structural, Debug)]
pub enum AlignX {
    Left,
    Center,
    Right,
}

impl Default for AlignX {
    fn default() -> (r: Self)
        ensures
            r == AlignX::Left,
    {
        AlignX::Left
    }
}

/// Vertical placement.
#[derive(Clone, Copy, PartialEq, Eq, Structural, Debug)]
pub enum AlignY {
    Top,
    Center,
    Bottom,
}

impl Default for AlignY {
    fn default() -> (r: Self)
        ensures
            r == AlignY::Top,
    {
        AlignY::Top
    }
}

} // verus!

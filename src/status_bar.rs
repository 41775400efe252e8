//! Where the status bar stands.

use vstd::prelude::*;

verus! {

/// The edge of the window that holds the status bar.
#[derive(Clone, Copy, PartialEq, Eq, Structural, Debug)]
pub enum StatusBarPosition {
    Top,
    Bottom,
}

impl Default for StatusBarPosition {
    fn default() -> (r: Self)
        ensures
            r == StatusBarPosition::Bottom,
    {
        StatusBarPosition::Bottom
    }
}

} // verus!

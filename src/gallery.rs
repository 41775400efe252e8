//! The gallery's cursor and scroll position over a grid of thumbnail tiles.
//!
//! The grid's shape (tiles per row and per column) is worked out from the
//! window's size elsewhere; here it is a pair of positive counts.

use vstd::prelude::*;

verus! {

/// The shape of the gallery grid: how many tiles a row and a column hold.
#[derive(Clone, Copy, Debug)]
pub struct Tiling {
    tiles_in_row: usize,
    tiles_in_col: usize,
}

/// The first tile of the row that holds `anchor`.
pub open spec fn row_start(anchor: int, tiles_in_row: int) -> int {
    anchor - anchor % tiles_in_row
}

impl Tiling {
    pub closed spec fn row_spec(&self) -> nat {
        self.tiles_in_row as nat
    }

    pub closed spec fn col_spec(&self) -> nat {
        self.tiles_in_col as nat
    }

    /// The number of tiles of the grid.
    pub open spec fn tiles_spec(&self) -> nat {
        self.row_spec() * self.col_spec()
    }

    #[verifier::type_invariant]
    closed spec fn positive(&self) -> bool {
        &&& self.tiles_in_row > 0
        &&& self.tiles_in_col > 0
        &&& self.tiles_in_row * self.tiles_in_col <= usize::MAX
    }

    /// A grid of the given shape, or `None` where a row or a column holds no tile.
    pub fn new(tiles_in_row: usize, tiles_in_col: usize) -> (r: Option<Self>)
        requires
            tiles_in_row * tiles_in_col <= usize::MAX,
        ensures
            r is None <==> (tiles_in_row == 0 || tiles_in_col == 0),
            r matches Some(t) ==> t.row_spec() == tiles_in_row && t.col_spec() == tiles_in_col,
    {
        if tiles_in_row == 0 || tiles_in_col == 0 {
            None
        } else {
            Some(Tiling { tiles_in_row, tiles_in_col })
        }
    }

    /// The number of tiles in a row.
    pub fn tiles_in_row(&self) -> (r: usize)
        ensures
            r == self.row_spec(),
            r > 0,
    {
        proof {
            use_type_invariant(self);
        }
        self.tiles_in_row
    }

    /// The number of tiles in a column.
    pub fn tiles_in_col(&self) -> (r: usize)
        ensures
            r == self.col_spec(),
            r > 0,
    {
        proof {
            use_type_invariant(self);
        }
        self.tiles_in_col
    }

    /// The number of tiles of the grid.
    pub fn tiles(&self) -> (r: usize)
        ensures
            r == self.tiles_spec(),
            r > 0,
    {
        proof {
            use_type_invariant(self);
            assert(self.tiles_in_row * self.tiles_in_col > 0) by (nonlinear_arith)
                requires
                    self.tiles_in_row > 0,
                    self.tiles_in_col > 0,
            ;
        }
        self.tiles_in_row * self.tiles_in_col
    }
}

/// The gallery's cursor and the image that keeps the grid scrolled.
pub struct Gallery {
    /// The current position in the gallery
    cursor: usize,
    /// Index of an image in the top row of the grid; it tracks the scroll
    anchor: usize,
}

impl Gallery {
    pub closed spec fn cursor_spec(&self) -> nat {
        self.cursor as nat
    }

    pub closed spec fn anchor_spec(&self) -> nat {
        self.anchor as nat
    }

    /// Both positions are indices into a list of `length` images.
    pub open spec fn wf(&self, length: nat) -> bool {
        self.cursor_spec() < length && self.anchor_spec() < length
    }

    /// The first visible image and the number of visible tiles.
    pub open spec fn visible_range_spec(&self, tiling: Tiling) -> (nat, nat) {
        (
            row_start(self.anchor_spec() as int, tiling.row_spec() as int) as nat,
            tiling.tiles_spec(),
        )
    }

    /// Whether `index` lies within the visible tiles.
    pub open spec fn shows(&self, tiling: Tiling, index: nat) -> bool {
        let (first, tiles) = self.visible_range_spec(tiling);
        first <= index < first + tiles
    }

    /// A gallery at the first image.
    pub fn init() -> (r: Self)
        ensures
            r.cursor_spec() == 0,
            r.anchor_spec() == 0,
    {
        Gallery { cursor: 0, anchor: 0 }
    }

    /// The position of the cursor.
    pub fn cursor(&self) -> (r: usize)
        ensures
            r == self.cursor_spec(),
    {
        self.cursor
    }

    /// Move the cursor, and scroll the grid as little as it takes to show it.
    pub fn set_cursor(&mut self, index: usize, tiling: Option<Tiling>)
        ensures
            final(self).cursor_spec() == index,
            final(self).anchor_spec() <= index || final(self).anchor_spec() == old(self).anchor_spec(),
            tiling is None ==> final(self).anchor_spec() == index,
            tiling matches Some(t) ==> final(self).shows(t, index as nat),
            tiling matches Some(t) && old(self).shows(t, index as nat) ==> final(self).anchor_spec()
                == old(self).anchor_spec(),
    {
        self.update_anchor(index, tiling);
        self.cursor = index;
    }

    /// Update the anchor so that the grid shows `index`.
    fn update_anchor(&mut self, index: usize, tiling: Option<Tiling>)
        ensures
            final(self).cursor_spec() == old(self).cursor_spec(),
            final(self).anchor_spec() <= index || final(self).anchor_spec() == old(self).anchor_spec(),
            tiling is None ==> final(self).anchor_spec() == index,
            tiling matches Some(t) ==> final(self).shows(t, index as nat),
            tiling matches Some(t) && old(self).shows(t, index as nat) ==> final(self).anchor_spec()
                == old(self).anchor_spec(),
    {
        let tiling = match tiling {
            Some(t) => t,
            None => {
                // No grid, so fix the anchor on the new index
                self.anchor = index;
                return;
            },
        };
        let row = tiling.tiles_in_row();
        let col = tiling.tiles_in_col();
        let (first, tiles) = self.visible_range(&tiling);

        // The row holding `index`
        let index_row = index / row;
        proof {
            assert(index_row * row <= index) by (nonlinear_arith)
                requires
                    index_row == index / row,
                    row > 0,
            ;
            assert(index - index_row * row == index % row) by (nonlinear_arith)
                requires
                    index_row == index / row,
                    row > 0,
            ;
            assert((index_row * row) % (row as int) == 0) by (nonlinear_arith)
                requires
                    row > 0,
            ;
            assert(row <= tiles) by (nonlinear_arith)
                requires
                    tiles == row * col,
                    col > 0,
            ;
        }
        if index < first {
            // Above the visible range: put the image in the top row
            self.anchor = index_row * row;
            assert(row_start(self.anchor as int, row as int) == index_row * row);
        } else if index - first >= tiles {
            // Below the visible range: put the image in the bottom row
            proof {
                assert(index_row + 1 >= col) by (nonlinear_arith)
                    requires
                        index - first >= tiles,
                        tiles == row * col,
                        index_row == index / row,
                        first >= 0,
                        row > 0,
                ;
            }
            let top_row = index_row - (col - 1);
            proof {
                assert(top_row * row <= index_row * row) by (nonlinear_arith)
                    requires
                        top_row <= index_row,
                        row > 0,
                ;
                assert(top_row * row == index_row * row - (col - 1) * row) by (nonlinear_arith)
                    requires
                        top_row == index_row + 1 - col,
                ;
                assert((top_row * row) % (row as int) == 0) by (nonlinear_arith)
                    requires
                        row > 0,
                ;
                assert((col - 1) * row + row == tiles) by (nonlinear_arith)
                    requires
                        tiles == row * col,
                ;
            }
            self.anchor = top_row * row;
            assert(row_start(self.anchor as int, row as int) == top_row * row);
        } else {
            // Already visible: keep the anchor
        }
    }

    /// The number of tiles in a row of the grid, or 0 where there is no grid.
    pub fn tiles_in_row(&self, tiling: Option<Tiling>) -> (r: usize)
        ensures
            tiling is None ==> r == 0,
            tiling matches Some(t) ==> r == t.row_spec(),
    {
        match tiling {
            Some(t) => t.tiles_in_row(),
            None => 0,
        }
    }

    /// The range of images whose thumbnails should be loaded: the first
    /// visible image and the number of visible tiles.
    pub fn load_range(&self, tiling: Option<Tiling>) -> (r: Option<(usize, usize)>)
        ensures
            tiling is None ==> r is None,
            tiling matches Some(t) ==> r matches Some(p) && (p.0 as nat, p.1 as nat)
                == self.visible_range_spec(t),
            r matches Some(p) ==> p.0 <= self.anchor_spec(),
    {
        match tiling {
            Some(t) => Some(self.visible_range(&t)),
            None => None,
        }
    }

    /// The first visible image and the number of visible tiles.
    fn visible_range(&self, tiling: &Tiling) -> (r: (usize, usize))
        ensures
            (r.0 as nat, r.1 as nat) == self.visible_range_spec(*tiling),
            r.0 <= self.anchor_spec(),
            tiling.row_spec() > 0,
            tiling.col_spec() > 0,
            r.1 == tiling.tiles_spec(),
    {
        proof {
            use_type_invariant(tiling);
        }
        let row = tiling.tiles_in_row();
        proof {
            assert(self.anchor % row <= self.anchor) by (nonlinear_arith)
                requires
                    row > 0,
            ;
        }
        let first = self.anchor - self.anchor % row;
        let tiles = tiling.tiles();
        (first, tiles)
    }
}

} // verus!

use vstd::prelude::*;

verus! {

/// The terminal's dimensions in character cells.
#[derive(Clone, Copy, Debug, PartialEq, Eq, Structural)]
pub struct Size {
    pub width: u16,
    pub height: u16,
}

/// A zero-based (column, row) cell of the screen.
#[derive(Clone, Copy, Debug, PartialEq, Eq, Structural)]
pub struct Position {
    pub col: u16,
    pub row: u16,
}

/// `n - 1`, or `0` when `n` is `0`.
pub open spec fn last_index(n: u16) -> int {
    if n == 0 { 0 } else { n - 1 }
}

impl Size {
    /// Both dimensions are at least one cell.
    pub open spec fn is_positive(self) -> bool {
        self.width > 0 && self.height > 0
    }

    /// The cell lies inside the grid.
    pub open spec fn contains(self, p: Position) -> bool {
        p.col < self.width && p.row < self.height
    }
}

} // verus!

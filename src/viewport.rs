//! Which line is at the top of the window, so that the cursor's line shows.
use vstd::prelude::*;

verus! {

/// The top line after the cursor moved to `row`: unchanged where `row` already
/// shows, else moved just far enough that `row` becomes the first or the last
/// visible line. A `height` of zero only keeps the top at or above `row`.
pub open spec fn follow(row: int, top: int, height: int) -> int {
    if row < top {
        row
    } else if height > 0 && row >= top + height {
        row - height + 1
    } else {
        top
    }
}

/// Recomputes the top line of a window of `height` lines for a cursor on `row`.
pub fn scroll_to_row(row: usize, top: usize, height: usize) -> (r: usize)
    ensures
        r == follow(row as int, top as int, height as int),
        height > 0 ==> r <= row < r + height,
        r <= row || r == top,
{
    if row < top {
        row
    } else if height > 0 && row - top >= height {
        row - height + 1
    } else {
        top
    }
}

} // verus!

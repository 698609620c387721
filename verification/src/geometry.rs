//! Half-block pixel geometry and the vertical coordinate reconciliation
//! between the rendered image and the terminal surface.

use vstd::prelude::*;

verus! {

/// Width, in half-block pixels, of one terminal cell.
pub const CURSOR_PIXEL_WIDTH: u32 = 1;

/// Height, in half-block pixels, of one terminal cell: the half-block scheme
/// doubles the vertical resolution, so one character row holds two pixels.
pub const CURSOR_PIXEL_HEIGHT: u32 = 2;

/// The addressable pixel height of a terminal that is `rows` character rows
/// tall.
pub open spec fn pixel_height_spec(rows: u16) -> int {
    2 * rows
}

/// Doubles a row count into the half-block pixel height.
pub fn pixel_height_of_rows(rows: u16) -> (r: u32)
    ensures
        r == pixel_height_spec(rows),
{
    2 * (rows as u32)
}

/// The source row of the rendered image that supplies destination row `y`:
/// the image's vertical origin is inverted relative to the terminal's
/// top-left origin.
pub open spec fn source_row(height: int, y: int) -> int {
    height - y - 1
}

/// Computes the inverted source row for a destination row inside the surface.
pub fn reconcile_row(height: u32, y: u32) -> (r: u32)
    requires
        y < height,
    ensures
        r == source_row(height as int, y as int),
{
    height - y - 1
}

/// Law: for every destination row inside the pixel bounds, the reconciliation
/// mapping lands inside the same bounds, and applying it twice with the same
/// height returns the original row — the inversion is an involution.
pub proof fn lemma_source_row_involution(height: int, y: int)
    requires
        0 <= y < height,
    ensures
        0 <= source_row(height, y) < height,
        source_row(height, source_row(height, y)) == y,
{
}

} // verus!

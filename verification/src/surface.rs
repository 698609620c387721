//! The destination pixel surface: the layer's contribution to the terminal,
//! rebuilt from scratch every frame and submitted to the host when complete.

use vstd::prelude::*;

use crate::errors::FrameError;

verus! {

/// The layer's half-block pixel surface. A cell is `None` until the frame
/// writes a color into it, so a cleared surface carries no stale pixels.
pub struct Surface {
    /// Columns of the surface, one per terminal cell column.
    pub width: usize,
    /// Rows of the surface, two per terminal character row.
    pub height: usize,
    /// Row-major cells, `width * height` entries.
    pub cells: Vec<Option<u32>>,
}

impl Surface {
    /// The cell grid is complete: one slot per coordinate.
    pub open spec fn wf(&self) -> bool {
        self.cells@.len() == self.width * self.height
    }

    /// The cell at column `x`, row `y`.
    pub open spec fn cell_at(&self, x: int, y: int) -> Option<u32> {
        self.cells@[y * self.width + x]
    }

    /// Every cell is still untouched.
    pub open spec fn is_cleared(&self) -> bool {
        forall|i: int| 0 <= i < self.cells@.len() ==> self.cells@[i] is None
    }

    /// Builds a cleared surface of the given pixel dimensions.
    pub fn cleared(width: usize, height: usize) -> (r: Surface)
        requires
            width * height <= usize::MAX,
        ensures
            r.wf(),
            r.width == width,
            r.height == height,
            r.is_cleared(),
    {
        proof {
            assert(width * height >= 0) by (nonlinear_arith);
        }
        let n: usize = width * height;
        let mut cells: Vec<Option<u32>> = Vec::new();
        while cells.len() < n
            invariant
                cells@.len() <= n,
                forall|i: int| 0 <= i < cells@.len() ==> cells@[i] is None,
            decreases n - cells@.len(),
        {
            cells.push(None);
        }
        Surface { width, height, cells }
    }

    /// Writes a color into the surface, or reports the offending coordinate
    /// when it lies outside the surface. A write touches its own cell and no
    /// other.
    pub fn add_pixel(&mut self, x: usize, y: usize, color: u32) -> (r: Result<(), FrameError>)
        requires
            old(self).wf(),
        ensures
            final(self).wf(),
            final(self).width == old(self).width,
            final(self).height == old(self).height,
            x < old(self).width && y < old(self).height ==> {
                &&& r is Ok
                &&& final(self).cell_at(x as int, y as int) == Some(color)
                &&& forall|xx: int, yy: int|
                    0 <= xx < old(self).width && 0 <= yy < old(self).height && !(xx == x && yy
                        == y) ==> #[trigger] final(self).cell_at(xx, yy) == old(self).cell_at(
                        xx,
                        yy,
                    )
            },
            !(x < old(self).width && y < old(self).height) ==> {
                &&& r == Err::<(), FrameError>((FrameError::SurfaceOutOfBounds { x, y }))
                &&& *final(self) == *old(self)
            },
    {
        if x < self.width && y < self.height {
            proof {
                assert(y * self.width + x < self.width * self.height) by (nonlinear_arith)
                    requires
                        x < self.width,
                        y < self.height,
                ;
                assert(self.cells.len() <= usize::MAX);
            }
            let i: usize = y * self.width + x;
            let ghost prev = *self;
            self.cells.set(i, Some(color));
            proof {
                assert forall|xx: int, yy: int|
                    0 <= xx < prev.width && 0 <= yy < prev.height && !(xx == x && yy == y) implies
                    self.cell_at(xx, yy) == prev.cell_at(xx, yy) by {
                    assert(0 <= yy * prev.width + xx < prev.width * prev.height)
                        by (nonlinear_arith)
                        requires
                            0 <= xx < prev.width,
                            0 <= yy < prev.height,
                    ;
                    if yy * prev.width + xx == i {
                        lemma_row_major_injective(
                            prev.width as int,
                            xx,
                            yy,
                            x as int,
                            y as int,
                        );
                    }
                }
            }
            Ok(())
        } else {
            Err(FrameError::SurfaceOutOfBounds { x, y })
        }
    }
}

/// Row-major cell indices are injective on coordinates inside the row width.
pub proof fn lemma_row_major_injective(w: int, x1: int, y1: int, x2: int, y2: int)
    requires
        0 <= x1 < w,
        0 <= x2 < w,
        0 <= y1,
        0 <= y2,
        y1 * w + x1 == y2 * w + x2,
    ensures
        x1 == x2,
        y1 == y2,
{
    assert(x1 == x2 && y1 == y2) by (nonlinear_arith)
        requires
            0 <= x1 < w,
            0 <= x2 < w,
            0 <= y1,
            0 <= y2,
            y1 * w + x1 == y2 * w + x2,
    ;
}

} // verus!

//! Per-frame errors of the render pass. Any of them aborts the current frame
//! and, through the loop, ends the layer's task via the supervision path.

use vstd::prelude::*;

verus! {

/// Why a render pass aborted.
#[derive(Clone, Copy, PartialEq, Eq, Structural, Debug)]
#[allow(inconsistent_fields)]
pub enum FrameError {
    /// The terminal reported a cursor cell position with a negative
    /// coordinate; pipeline units are non-negative, so the conversion fails.
    NegativeCursor { x: i64, y: i64 },
    /// A pixel fetch fell outside the rendered image: the offending
    /// destination column `x` and the inverted source row `y`.
    PixelOutOfBounds { x: usize, y: usize },
    /// A write landed outside the destination surface at `(x, y)`.
    SurfaceOutOfBounds { x: usize, y: usize },
}

} // verus!

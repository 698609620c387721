//! The rendered image: the ephemeral pixel grid the GPU pipeline hands back
//! for one frame, addressed with a vertically inverted origin.

use vstd::prelude::*;

verus! {

/// One frame's pixel grid as produced by the pipeline. Pixels are packed
/// colors stored row-major; the grid holds exactly `width * height` of them.
pub struct RenderedImage {
    /// Columns of the image.
    pub width: usize,
    /// Rows of the image.
    pub height: usize,
    /// Row-major pixel colors, `width * height` entries.
    pub pixels: Vec<u32>,
}

impl RenderedImage {
    /// The pixel grid is complete: one color per coordinate.
    pub open spec fn wf(&self) -> bool {
        self.pixels@.len() == self.width * self.height
    }

    /// The color stored at column `x`, row `y`.
    pub open spec fn pixel_at(&self, x: int, y: int) -> u32 {
        self.pixels@[y * self.width + x]
    }

    /// Builds an image from a row-major pixel buffer; refuses a buffer whose
    /// length does not match the claimed dimensions.
    pub fn new(width: usize, height: usize, pixels: Vec<u32>) -> (r: Option<RenderedImage>)
        ensures
            r is Some <==> pixels@.len() == width * height,
            r matches Some(img) ==> {
                &&& img.wf()
                &&& img.width == width
                &&& img.height == height
                &&& img.pixels@ == pixels@
            },
    {
        match width.checked_mul(height) {
            Some(n) => {
                if pixels.len() == n {
                    Some(RenderedImage { width, height, pixels })
                } else {
                    None
                }
            },
            None => {
                // The buffer's length fits in usize, so it cannot equal an
                // overflowing width * height.
                proof {
                    assert(pixels.len() <= usize::MAX);
                }
                None
            },
        }
    }

    /// Fetches the pixel at `(x, y)`, or `None` when the coordinate lies
    /// outside the image.
    pub fn get_pixel_checked(&self, x: usize, y: usize) -> (r: Option<u32>)
        requires
            self.wf(),
        ensures
            x < self.width && y < self.height ==> r == Some(self.pixel_at(x as int, y as int)),
            !(x < self.width && y < self.height) ==> r is None,
    {
        if x < self.width && y < self.height {
            proof {
                assert(y * self.width + x < self.width * self.height) by (nonlinear_arith)
                    requires
                        x < self.width,
                        y < self.height,
                ;
                assert(self.pixels.len() <= usize::MAX);
            }
            Some(self.pixels[y * self.width + x])
        } else {
            None
        }
    }
}

} // verus!

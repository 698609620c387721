//! The render pass: cursor conversion, frame preparation, and the
//! coordinate-reconciled copy of the rendered image onto the surface.

use vstd::prelude::*;

use crate::config::Config;
use crate::errors::FrameError;
use crate::geometry::source_row;
use crate::image::RenderedImage;
use crate::layer::{apply_frame_config, clear_surface, LayerState};

verus! {

/// Converts a cursor cell position into the pipeline's non-negative
/// coordinate units: any non-negative pair converts, any negative coordinate
/// is a conversion error — never a panic.
pub fn convert_cursor(x: i64, y: i64) -> (r: Result<(u64, u64), FrameError>)
    ensures
        x >= 0 && y >= 0 ==> r == Ok::<(u64, u64), FrameError>(((x as u64, y as u64))),
        !(x >= 0 && y >= 0) ==> r == Err::<(u64, u64), FrameError>(
            (FrameError::NegativeCursor { x, y }),
        ),
{
    if x >= 0 && y >= 0 {
        Ok((x as u64, y as u64))
    } else {
        Err(FrameError::NegativeCursor { x, y })
    }
}

/// Prepares the layer for one frame: converts the cursor position for the
/// pipeline, applies the configuration read at this tick, and clears the
/// destination surface. A negative cursor coordinate aborts the frame before
/// anything is touched.
pub fn begin_frame(
    state: &mut LayerState,
    cursor_x: i64,
    cursor_y: i64,
    config: &Config,
) -> (r: Result<(u64, u64), FrameError>)
    requires
        (old(state).width as int) * (2 * old(state).height as int) <= usize::MAX,
    ensures
        cursor_x >= 0 && cursor_y >= 0 ==> {
            &&& r == Ok::<(u64, u64), FrameError>(((cursor_x as u64, cursor_y as u64)))
            &&& final(state).wf()
            &&& final(state).surface.is_cleared()
            &&& final(state).opacity == config.opacity
            &&& final(state).layer == config.layer
            &&& final(state).width == old(state).width
            &&& final(state).height == old(state).height
        },
        !(cursor_x >= 0 && cursor_y >= 0) ==> {
            &&& r == Err::<(u64, u64), FrameError>(
                (FrameError::NegativeCursor { x: cursor_x, y: cursor_y }),
            )
            &&& *final(state) == *old(state)
        },
{
    let units = convert_cursor(cursor_x, cursor_y)?;
    apply_frame_config(state, config);
    clear_surface(state);
    Ok(units)
}

/// Whether the rendered image supplies every pixel the surface asks for. An
/// empty surface asks for none.
pub open spec fn image_covers_surface(image: RenderedImage, w: int, h: int) -> bool {
    w == 0 || h == 0 || (w <= image.width && h <= image.height)
}

/// The position tag of the first fetch that falls outside the image, in the
/// pass's iteration order: destination row 0 is filled first, from source row
/// `h - 1`.
pub open spec fn first_failed_fetch(image: RenderedImage, h: int) -> FrameError {
    FrameError::PixelOutOfBounds {
        x: if image.height < h {
            0usize
        } else {
            image.width
        },
        y: (h - 1) as usize,
    }
}

/// Completes the frame: copies the rendered image onto the surface with the
/// vertical axis reconciled — destination row `y` takes source row
/// `h - y - 1` — one pixel fetch per destination pixel. When the image covers
/// the surface the pass succeeds and reports the number of fetches; when it
/// does not, the pass stops at the first missing fetch, reports its position,
/// and leaves every pixel beyond the ones already processed untouched.
#[verifier::loop_isolation(false)]
pub fn complete_frame(state: &mut LayerState, image: &RenderedImage) -> (r: Result<
    u64,
    FrameError,
>)
    requires
        image.wf(),
        old(state).wf(),
    ensures
        final(state).wf(),
        final(state).width == old(state).width,
        final(state).height == old(state).height,
        final(state).opacity == old(state).opacity,
        final(state).layer == old(state).layer,
        final(state).surface.width == old(state).surface.width,
        final(state).surface.height == old(state).surface.height,
        image_covers_surface(*image, old(state).surface.width as int, old(state).surface.height as int)
            ==> {
            &&& r matches Ok(fetches) && fetches as int == old(state).surface.width as int
                * old(state).surface.height as int
            &&& forall|x: int, y: int|
                0 <= x < old(state).surface.width && 0 <= y < old(state).surface.height
                    ==> #[trigger] final(state).surface.cell_at(x, y) == Some(
                    image.pixel_at(x, source_row(old(state).surface.height as int, y)),
                )
        },
        !image_covers_surface(*image, old(state).surface.width as int, old(state).surface.height as int)
            ==> {
            &&& r == Err::<u64, FrameError>(
                first_failed_fetch(*image, old(state).surface.height as int),
            )
            &&& forall|x: int|
                0 <= x < image.width && image.height >= old(state).surface.height
                    ==> #[trigger] final(state).surface.cell_at(x, 0) == Some(
                    image.pixel_at(x, source_row(old(state).surface.height as int, 0)),
                )
            &&& forall|x: int, y: int|
                0 <= x < old(state).surface.width && 0 <= y < old(state).surface.height && !(y
                    == 0 && x < image.width && image.height >= old(state).surface.height)
                    ==> #[trigger] final(state).surface.cell_at(x, y)
                    == old(state).surface.cell_at(x, y)
        },
{
    let w = state.surface.width;
    let h = state.surface.height;
    let ghost old_state = *old(state);
    let mut fetches: u64 = 0;
    let mut y: usize = 0;
    while y < h
        invariant
            image.wf(),
            state.wf(),
            state.width == old_state.width,
            state.height == old_state.height,
            state.opacity == old_state.opacity,
            state.layer == old_state.layer,
            state.surface.width == w,
            state.surface.height == h,
            w == old_state.surface.width,
            h == old_state.surface.height,
            y <= h,
            fetches as int == y * w,
            y > 0 && w > 0 ==> w <= image.width && h <= image.height,
            forall|xx: int, yy: int|
                0 <= xx < w && 0 <= yy < y ==> #[trigger] state.surface.cell_at(xx, yy) == Some(
                    image.pixel_at(xx, h - yy - 1),
                ),
            forall|xx: int, yy: int|
                0 <= xx < w && y <= yy < h ==> #[trigger] state.surface.cell_at(xx, yy)
                    == old_state.surface.cell_at(xx, yy),
        decreases h - y,
    {
        let src = h - y - 1;
        let mut x: usize = 0;
        while x < w
            invariant
                image.wf(),
                state.wf(),
                state.width == old_state.width,
                state.height == old_state.height,
                state.opacity == old_state.opacity,
                state.layer == old_state.layer,
                state.surface.width == w,
                state.surface.height == h,
                w == old_state.surface.width,
                h == old_state.surface.height,
                y < h,
                x <= w,
                src == h - y - 1,
                fetches as int == y * w + x,
                y > 0 && w > 0 ==> w <= image.width && h <= image.height,
                x > 0 ==> x <= image.width && h - y - 1 < image.height,
                forall|xx: int, yy: int|
                    0 <= xx < w && 0 <= yy < y ==> #[trigger] state.surface.cell_at(xx, yy)
                        == Some(image.pixel_at(xx, h - yy - 1)),
                forall|xx: int| 0 <= xx < x ==> #[trigger] state.surface.cell_at(xx, y as int)
                    == Some(image.pixel_at(xx, h - y - 1)),
                forall|xx: int| x <= xx < w ==> #[trigger] state.surface.cell_at(xx, y as int)
                    == old_state.surface.cell_at(xx, y as int),
                forall|xx: int, yy: int|
                    0 <= xx < w && y < yy < h ==> #[trigger] state.surface.cell_at(xx, yy)
                        == old_state.surface.cell_at(xx, yy),
            decreases w - x,
        {
            proof {
                assert(y * w + x < w * h) by (nonlinear_arith)
                    requires
                        0 <= x < w,
                        0 <= y < h,
                ;
                assert(state.surface.cells.len() <= usize::MAX);
            }
            match image.get_pixel_checked(x, src) {
                Some(color) => {
                    fetches = fetches + 1;
                    match state.surface.add_pixel(x, y, color) {
                        Ok(_) => {},
                        Err(_) => {
                            proof {
                                assert(false);
                            }
                        },
                    }
                    x = x + 1;
                },
                None => {
                    proof {
                        if y > 0 {
                            // Row 0 succeeded, so the image covers the grid and
                            // this fetch cannot have missed.
                            assert(h - y - 1 < h <= image.height);
                            assert(false);
                        }
                        if x > 0 {
                            assert(h - 1 < image.height);
                            assert(x == image.width);
                        }
                    }
                    return Err(FrameError::PixelOutOfBounds { x, y: src });
                },
            }
        }
        proof {
            if w > 0 {
                assert(w <= image.width && h - y - 1 < image.height);
                if y == 0 {
                    assert(h <= image.height);
                }
            }
            assert((y + 1) * w == y * w + w) by (nonlinear_arith);
        }
        y = y + 1;
    }
    proof {
        assert(h * w == w * h) by (nonlinear_arith);
    }
    Ok(fetches)
}

} // verus!

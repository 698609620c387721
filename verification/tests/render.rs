use animated_cursor::config::Config;
use animated_cursor::errors::FrameError;
use animated_cursor::frame::{begin_frame, complete_frame, convert_cursor};
use animated_cursor::image::RenderedImage;
use animated_cursor::layer::{layer_init, pipeline_init, TtySize};

fn test_config(opacity: u16, layer: i16) -> Config {
    let mut config = Config::default();
    config.opacity = opacity;
    config.layer = layer;
    config
}

/// An image whose pixel at (x, y) is `y * width + x`, so every source
/// coordinate is recognizable in the destination.
fn numbered_image(width: usize, height: usize) -> RenderedImage {
    let mut pixels: Vec<u32> = Vec::new();
    for i in 0..(width * height) as u32 {
        pixels.push(i);
    }
    RenderedImage::new(width, height, pixels).expect("dimensions match the buffer")
}

#[test]
fn cursor_conversion_accepts_non_negative() {
    assert_eq!(convert_cursor(0, 0), Ok((0, 0)));
    assert_eq!(convert_cursor(3, 4), Ok((3, 4)));
    assert_eq!(convert_cursor(i64::MAX, 0), Ok((i64::MAX as u64, 0)));
}

#[test]
fn cursor_conversion_rejects_negative() {
    assert_eq!(convert_cursor(-1, 4), Err(FrameError::NegativeCursor { x: -1, y: 4 }));
    assert_eq!(convert_cursor(3, -2), Err(FrameError::NegativeCursor { x: 3, y: -2 }));
    assert_eq!(
        convert_cursor(i64::MIN, i64::MIN),
        Err(FrameError::NegativeCursor { x: i64::MIN, y: i64::MIN })
    );
}

#[test]
fn pipeline_dimensions_double_the_rows() {
    let init = pipeline_init(TtySize { width: 10, height: 5 });
    assert_eq!(init.pixel_width, 10);
    assert_eq!(init.pixel_height, 10);
}

#[test]
fn layer_init_reads_config_and_size() {
    let config = test_config(600, 3);
    let state = layer_init(&config, TtySize { width: 7, height: 4 });
    assert_eq!(state.width, 7);
    assert_eq!(state.height, 4);
    assert_eq!(state.opacity, 600);
    assert_eq!(state.layer, 3);
    assert_eq!(state.surface.width, 7);
    assert_eq!(state.surface.height, 8);
    assert!(state.surface.cells.iter().all(Option::is_none));
}

#[test]
fn begin_frame_applies_current_config() {
    let mut state = layer_init(&test_config(100, 0), TtySize { width: 4, height: 3 });
    let units = begin_frame(&mut state, 2, 1, &test_config(900, -5));
    assert_eq!(units, Ok((2, 1)));
    assert_eq!(state.opacity, 900);
    assert_eq!(state.layer, -5);
    assert!(state.surface.cells.iter().all(Option::is_none));
}

#[test]
fn config_change_between_ticks_is_live() {
    let mut state = layer_init(&test_config(100, 0), TtySize { width: 4, height: 3 });
    assert_eq!(begin_frame(&mut state, 0, 0, &test_config(200, 1)), Ok((0, 0)));
    assert_eq!(state.opacity, 200);
    assert_eq!(state.layer, 1);
    // The configuration changed before the next tick: the very next pass runs
    // with the new values, nothing of the old pair survives.
    assert_eq!(begin_frame(&mut state, 0, 0, &test_config(450, -2)), Ok((0, 0)));
    assert_eq!(state.opacity, 450);
    assert_eq!(state.layer, -2);
}

#[test]
fn begin_frame_rejects_negative_cursor_untouched() {
    let config = test_config(100, 0);
    let mut state = layer_init(&config, TtySize { width: 4, height: 3 });
    let r = begin_frame(&mut state, -7, 2, &test_config(999, 9));
    assert_eq!(r, Err(FrameError::NegativeCursor { x: -7, y: 2 }));
    // The frame aborted before anything was applied.
    assert_eq!(state.opacity, 100);
    assert_eq!(state.layer, 0);
}

#[test]
fn render_pass_fetches_one_pixel_per_destination() {
    // A 10-cell-wide, 5-row terminal addresses a 10 x 10 pixel grid: the pass
    // makes exactly 100 fetches, one per destination pixel, each from the
    // inverted source row.
    let config = Config::default();
    let mut state = layer_init(&config, TtySize { width: 10, height: 5 });
    let image = numbered_image(10, 10);
    let fetches = complete_frame(&mut state, &image).expect("image covers the surface");
    assert_eq!(fetches, 100);
    for y in 0..10u32 {
        for x in 0..10u32 {
            let source_y = 10 - y - 1;
            let expected = source_y * 10 + x;
            assert_eq!(state.surface.cells[(y * 10 + x) as usize], Some(expected));
        }
    }
}

#[test]
fn short_image_fails_with_tagged_position() {
    // The surface asks for rows up to source row 9; a 10 x 9 image misses the
    // very first fetch, and nothing is written.
    let config = Config::default();
    let mut state = layer_init(&config, TtySize { width: 10, height: 5 });
    let image = numbered_image(10, 9);
    let r = complete_frame(&mut state, &image);
    assert_eq!(r, Err(FrameError::PixelOutOfBounds { x: 0, y: 9 }));
    assert!(state.surface.cells.iter().all(Option::is_none));
}

#[test]
fn narrow_image_fails_after_partial_first_row() {
    // A 5 x 10 image satisfies the first five fetches of destination row 0,
    // then misses at column 5: exactly those five pixels are written, no more.
    let config = Config::default();
    let mut state = layer_init(&config, TtySize { width: 10, height: 5 });
    let image = numbered_image(5, 10);
    let r = complete_frame(&mut state, &image);
    assert_eq!(r, Err(FrameError::PixelOutOfBounds { x: 5, y: 9 }));
    for x in 0..5u32 {
        // Source row 9 of the 5-wide image.
        assert_eq!(state.surface.cells[x as usize], Some(9 * 5 + x));
    }
    for i in 5..state.surface.cells.len() {
        assert_eq!(state.surface.cells[i], None);
    }
}

#[test]
fn empty_surface_renders_nothing() {
    let config = Config::default();
    let mut state = layer_init(&config, TtySize { width: 0, height: 0 });
    let image = numbered_image(0, 0);
    assert_eq!(complete_frame(&mut state, &image), Ok(0));
}

#[test]
fn image_constructor_checks_dimensions() {
    assert!(RenderedImage::new(3, 2, vec![0; 6]).is_some());
    assert!(RenderedImage::new(3, 2, vec![0; 5]).is_none());
    assert!(RenderedImage::new(3, 2, vec![0; 7]).is_none());
}

#[test]
fn pixel_fetch_is_bounds_checked() {
    let image = numbered_image(3, 2);
    assert_eq!(image.get_pixel_checked(2, 1), Some(5));
    assert_eq!(image.get_pixel_checked(3, 1), None);
    assert_eq!(image.get_pixel_checked(2, 2), None);
}

#[test]
fn surface_write_is_bounds_checked() {
    let config = Config::default();
    let mut state = layer_init(&config, TtySize { width: 2, height: 1 });
    assert_eq!(state.surface.add_pixel(1, 1, 7), Ok(()));
    assert_eq!(state.surface.cells[3], Some(7));
    assert_eq!(
        state.surface.add_pixel(2, 0, 7),
        Err(FrameError::SurfaceOutOfBounds { x: 2, y: 0 })
    );
}

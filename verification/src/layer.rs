//! The layer's own state: terminal dimensions, the live opacity and z-order,
//! and the per-frame destination surface. Mirrors what the generic layer base
//! holds for this layer, so the render pass can be stated over plain values.

use vstd::prelude::*;

use crate::config::Config;
use crate::geometry::pixel_height_of_rows;
use crate::surface::Surface;

verus! {

/// The terminal's size in character cells.
#[derive(Clone, Copy, PartialEq, Eq, Structural, Debug)]
pub struct TtySize {
    /// Columns.
    pub width: u16,
    /// Character rows.
    pub height: u16,
}

/// The pixel dimensions the GPU pipeline is constructed with.
#[derive(Clone, Copy, PartialEq, Eq, Structural, Debug)]
pub struct PipelineInit {
    /// Image columns: one per terminal cell column.
    pub pixel_width: u32,
    /// Image rows: two per character row, per the half-block invariant.
    pub pixel_height: u32,
}

/// State of one layer instance between frames.
pub struct LayerState {
    /// Terminal width in cells.
    pub width: u16,
    /// Terminal height in character rows.
    pub height: u16,
    /// Current opacity, in thousandths of full opacity.
    pub opacity: u16,
    /// Current z-order.
    pub layer: i16,
    /// The destination pixel surface for the current frame.
    pub surface: Surface,
}

impl LayerState {
    /// The pixel height of this layer's surface grid.
    pub open spec fn pixel_height(&self) -> int {
        2 * self.height
    }

    /// The surface grid is complete and sized to the terminal: one column per
    /// cell, two rows per character row.
    pub open spec fn wf(&self) -> bool {
        &&& self.surface.wf()
        &&& self.surface.width == self.width
        &&& self.surface.height == self.pixel_height()
    }
}

/// The pixel dimensions for constructing the pipeline from the current
/// terminal size: width in cells, height doubled per the half-block scheme.
pub fn pipeline_init(size: TtySize) -> (r: PipelineInit)
    ensures
        r.pixel_width == size.width as u32,
        r.pixel_height == 2 * size.height as u32,
{
    PipelineInit { pixel_width: size.width as u32, pixel_height: pixel_height_of_rows(size.height) }
}

/// Starts a layer from the current configuration and terminal size, with a
/// cleared surface sized to the terminal's pixel grid.
pub fn layer_init(config: &Config, size: TtySize) -> (r: LayerState)
    requires
        (size.width as int) * (2 * size.height as int) <= usize::MAX,
    ensures
        r.wf(),
        r.width == size.width,
        r.height == size.height,
        r.opacity == config.opacity,
        r.layer == config.layer,
        r.surface.is_cleared(),
{
    let surface = Surface::cleared(size.width as usize, 2 * (size.height as usize));
    LayerState {
        width: size.width,
        height: size.height,
        opacity: config.opacity,
        layer: config.layer,
        surface,
    }
}

/// The layer as it stands after the configuration read at a tick has been
/// applied: opacity and z-order come from that configuration alone, the rest
/// of the layer is untouched.
pub open spec fn frame_settings(s: LayerState, c: Config) -> LayerState {
    LayerState { opacity: c.opacity, layer: c.layer, ..s }
}

/// Applies the configuration read for this frame to the layer: the opacity
/// and z-order in force are always the ones current at the tick, never a
/// cached pair.
pub fn apply_frame_config(state: &mut LayerState, config: &Config)
    ensures
        *final(state) == frame_settings(*old(state), *config),
        final(state).opacity == config.opacity,
        final(state).layer == config.layer,
        final(state).width == old(state).width,
        final(state).height == old(state).height,
        final(state).surface == old(state).surface,
{
    state.opacity = config.opacity;
    state.layer = config.layer;
}

/// Clears the destination surface for a fresh frame, sized to the terminal's
/// current pixel grid.
pub fn clear_surface(state: &mut LayerState)
    requires
        (old(state).width as int) * (2 * old(state).height as int) <= usize::MAX,
    ensures
        final(state).wf(),
        final(state).surface.is_cleared(),
        final(state).width == old(state).width,
        final(state).height == old(state).height,
        final(state).opacity == old(state).opacity,
        final(state).layer == old(state).layer,
{
    state.surface = Surface::cleared(state.width as usize, 2 * (state.height as usize));
}

/// Law: a configuration change between two frame ticks is reflected in the
/// very next render pass. For any layer state and any configuration an
/// earlier pass applied, the pass that reads `current` runs with exactly
/// `current`'s opacity and z-order — nothing of the earlier configuration
/// survives the tick.
pub proof fn lemma_config_never_stale(s: LayerState, earlier: Config, current: Config)
    ensures
        frame_settings(frame_settings(s, earlier), current).opacity == current.opacity,
        frame_settings(frame_settings(s, earlier), current).layer == current.layer,
        frame_settings(frame_settings(s, earlier), current) == frame_settings(s, current),
{
}

} // verus!

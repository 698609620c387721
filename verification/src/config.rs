//! User configuration for the cursor-effect layer. Every field has a default,
//! so a configuration is fully valid even when the user supplies nothing.

use vstd::prelude::*;

verus! {

/// Full opacity on the integer scale used throughout the layer: opacity is
/// stored in thousandths of full opacity, so contracts stay in integer
/// arithmetic.
pub const OPACITY_SCALE: u16 = 1000;

/// Default opacity: three quarters of full.
pub const DEFAULT_OPACITY: u16 = 750;

/// Default z-order: one layer behind the terminal text.
pub const DEFAULT_LAYER: i16 = -1;

/// The default shader file, relative to the configured shader directory.
pub open spec fn default_shader_path() -> Seq<char> {
    "cursor_shaders/default.glsl"@
}

/// Hot-readable settings for this layer. The host re-reads them every frame,
/// so changes apply live without a restart.
#[derive(Clone, Debug)]
pub struct Config {
    /// Whether the layer runs at all.
    pub enabled: bool,
    /// Path of the shader file, resolved by the host relative to a configured
    /// shader directory.
    pub path: String,
    /// Opacity of the rendered layer, in thousandths of full opacity.
    pub opacity: u16,
    /// Z-order of the layer; lower values sit further back.
    pub layer: i16,
    /// Whether the terminal's own content is uploaded to the pipeline as an
    /// input texture, for shaders that redraw the text itself.
    pub upload_tty_as_pixels: bool,
}

impl Config {
    /// The opacity stays on its scale.
    pub open spec fn wf(&self) -> bool {
        self.opacity <= OPACITY_SCALE
    }
}

impl Default for Config {
    /// The fully valid configuration used when the user supplies nothing:
    /// disabled, default shader, three-quarter opacity, one layer back, no
    /// terminal-content upload.
    fn default() -> (r: Self)
        ensures
            r.wf(),
            !r.enabled,
            r.path@ == default_shader_path(),
            r.opacity == DEFAULT_OPACITY,
            r.layer == DEFAULT_LAYER,
            !r.upload_tty_as_pixels,
    {
        Config {
            enabled: false,
            path: "cursor_shaders/default.glsl".to_owned(),
            opacity: DEFAULT_OPACITY,
            layer: DEFAULT_LAYER,
            upload_tty_as_pixels: false,
        }
    }
}

/// Whether a repaint's texture upload includes the terminal's content: the
/// flag is read from the configuration current at the time of the message.
pub fn include_tty_content(config: &Config) -> (r: bool)
    ensures
        r == config.upload_tty_as_pixels,
{
    config.upload_tty_as_pixels
}

} // verus!

//! Verified core of the Fractal Wonder explorer: progressive-render
//! bookkeeping, tiling, pixel-buffer assembly, palette naming, runtime
//! settings and the URL-hash state codec.

pub mod cycles;
pub mod render_settings;
pub mod arith;
pub mod pixel;
pub mod tiles;
pub mod assembly;
pub mod adam7;
pub mod palette_names;
pub mod palette_editor;
pub mod explorer_controls;
pub mod render_progress;
pub mod runtime_settings;
pub mod test_image;
pub mod colorizer_registry;
pub mod palette_lut;
pub mod palette_catalog;
pub mod state_codec;
pub mod render_control;
pub mod interaction;
pub mod ui_state;

//! Terminal image rendering: maps pixel grids to text blocks built from a
//! fixed brightness ramp, optionally colorized with ANSI escape sequences.

pub mod config;
pub mod luminance;
pub mod playback;
pub mod ramp;
pub mod render;

pub use config::{resolve_config, ProcessType, RenderConfig, Resolution};
pub use luminance::luma;
pub use playback::{playback_step, PlaybackAction, PlaybackEvent};
pub use ramp::{map_to_glyph, ramp_string};
pub use render::{output_height, process_pixel, render_cells, render_frame};

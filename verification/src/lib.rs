//! Rendering of SVG markup into RGBA rasters, and of rasters into PNG.
//!
//! The raster engine itself is `resvg`. This crate holds the validation of
//! sizes and options, the order of the engine's steps, the acceptance of
//! what the engine hands back, the PNG encoding and the error taxonomy, each
//! with a verified contract.

pub mod engine;
pub mod error;
pub mod options;
pub mod raster;
pub mod renderer;
pub mod steps;

pub use error::RenderError;
pub use options::SVGOptions;
pub use raster::RenderedImage;
pub use renderer::Resvg;
pub use steps::{next_step, Next, Step, StepOutcome};

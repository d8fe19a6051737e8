//! Digital Elevation Model (DEM) processing settings, as handed to the
//! algorithms of the `gdaldem` tool.

pub mod color_relief;
pub mod options;

pub use color_relief::{ColorMatchingMode, ColorReliefOptions};
pub use options::{DemAlg, DemSlopeAlg};

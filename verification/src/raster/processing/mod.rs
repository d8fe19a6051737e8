//! Settings of GDAL's raster processing routines.

pub mod dem;
pub mod warp;

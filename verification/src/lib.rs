//! Verified core of the GDAL bindings: option lists handed to GDAL's
//! processing programs, the mapping between GDAL's C enumerations and
//! their Rust counterparts, raster buffers, and the small text formats
//! (decimal numbers, string lists, request paths) that the bindings read
//! and write.

pub mod cpl;
pub mod errors;
pub mod raster;
pub mod rustiles;
pub mod spatial_ref;
pub mod test_utils;
pub mod text;

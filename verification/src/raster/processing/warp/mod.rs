//! Settings of GDAL's warper.

pub mod resample;

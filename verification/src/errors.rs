//! The error type of the library.

use vstd::prelude::*;
use crate::raster::mdarray::ExtendedDataTypeClass;

verus! {

/// Errors reported by the library and by the GDAL calls around it.
#[derive(Debug)]
#[allow(inconsistent_fields)]
pub enum GdalError {
    /// A string handed to GDAL holds a NUL character, which C strings cannot carry.
    FfiNulError,
    /// An argument is outside what the operation accepts.
    BadArgument(String),
    /// Operations were called in an order that the API does not allow.
    UnexpectedLogicError(String),
    /// An OGR routine reported the error code `err`.
    OgrError { err: u32, method_name: &'static str },
    /// GDAL's error handler reported an error of class `class`.
    CplError { class: u32, number: i32, msg: String },
    /// A GDAL routine returned a null pointer.
    NullPointer { method_name: &'static str, msg: String },
    /// A coordinate transformation could not be computed.
    InvalidCoordinateRange { from: String, to: String, msg: Option<String> },
    /// A spatial reference has no axis under the given key.
    AxisNotFoundError { key: String, method_name: &'static str },
    /// A multidimensional array holds data of a class that the read does not handle.
    UnsupportedMdDataType { data_type: ExtendedDataTypeClass, method_name: &'static str },
}

/// The result type of the library's fallible operations.
pub type Result<T> = core::result::Result<T, GdalError>;

} // verus!

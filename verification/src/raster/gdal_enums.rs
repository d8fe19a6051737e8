//! GDAL's C enumerations of pixel types, I/O directions, access modes and
//! resampling algorithms.

use vstd::prelude::*;

verus! {

/// Pixel data types, in the order of GDAL's `GDALDataType` codes (0 to 11).
#[derive(Clone, Copy, Debug, PartialEq, Eq)]
#[allow(non_camel_case_types)]
pub enum GDALDataType {
    /// Unknown or unspecified type
    GDT_Unknown,
    /// Eight bit unsigned integer
    GDT_Byte,
    /// Sixteen bit unsigned integer
    GDT_UInt16,
    /// Sixteen bit signed integer
    GDT_Int16,
    /// Thirty two bit unsigned integer
    GDT_UInt32,
    /// Thirty two bit signed integer
    GDT_Int32,
    /// Thirty two bit floating point
    GDT_Float32,
    /// Sixty four bit floating point
    GDT_Float64,
    /// Complex Int16
    GDT_CInt16,
    /// Complex Int32
    GDT_CInt32,
    /// Complex Float32
    GDT_CFloat32,
    /// Complex Float64
    GDT_CFloat64,
}

/// The C code of the data type `t`: its position in the declaration.
pub open spec fn gdal_data_type_code(t: GDALDataType) -> int {
    match t {
        GDALDataType::GDT_Unknown => 0,
        GDALDataType::GDT_Byte => 1,
        GDALDataType::GDT_UInt16 => 2,
        GDALDataType::GDT_Int16 => 3,
        GDALDataType::GDT_UInt32 => 4,
        GDALDataType::GDT_Int32 => 5,
        GDALDataType::GDT_Float32 => 6,
        GDALDataType::GDT_Float64 => 7,
        GDALDataType::GDT_CInt16 => 8,
        GDALDataType::GDT_CInt32 => 9,
        GDALDataType::GDT_CFloat32 => 10,
        GDALDataType::GDT_CFloat64 => 11,
    }
}

/// The data type that `from_c_int` reads from the code `n`: the type of that
/// code, except for `GDT_Int16` (code 3), which it does not recognise, and
/// `GDT_Unknown` for every code outside 1 to 11.
pub open spec fn gdal_data_type_from_code(n: int) -> GDALDataType {
    if n == 1 {
        GDALDataType::GDT_Byte
    } else if n == 2 {
        GDALDataType::GDT_UInt16
    } else if n == 4 {
        GDALDataType::GDT_UInt32
    } else if n == 5 {
        GDALDataType::GDT_Int32
    } else if n == 6 {
        GDALDataType::GDT_Float32
    } else if n == 7 {
        GDALDataType::GDT_Float64
    } else if n == 8 {
        GDALDataType::GDT_CInt16
    } else if n == 9 {
        GDALDataType::GDT_CInt32
    } else if n == 10 {
        GDALDataType::GDT_CFloat32
    } else if n == 11 {
        GDALDataType::GDT_CFloat64
    } else {
        GDALDataType::GDT_Unknown
    }
}

impl GDALDataType {
    /// The data type of a C code (see `gdal_data_type_from_code`).
    pub fn from_c_int(gdal_type: i32) -> (t: GDALDataType)
        ensures
            t == gdal_data_type_from_code(gdal_type as int),
    {
        if gdal_type == GDALDataType::GDT_Byte.to_c_int() {
            GDALDataType::GDT_Byte
        } else if gdal_type == GDALDataType::GDT_UInt16.to_c_int() {
            GDALDataType::GDT_UInt16
        } else if gdal_type == GDALDataType::GDT_UInt32.to_c_int() {
            GDALDataType::GDT_UInt32
        } else if gdal_type == GDALDataType::GDT_Int32.to_c_int() {
            GDALDataType::GDT_Int32
        } else if gdal_type == GDALDataType::GDT_Float32.to_c_int() {
            GDALDataType::GDT_Float32
        } else if gdal_type == GDALDataType::GDT_Float64.to_c_int() {
            GDALDataType::GDT_Float64
        } else if gdal_type == GDALDataType::GDT_CInt16.to_c_int() {
            GDALDataType::GDT_CInt16
        } else if gdal_type == GDALDataType::GDT_CInt32.to_c_int() {
            GDALDataType::GDT_CInt32
        } else if gdal_type == GDALDataType::GDT_CFloat32.to_c_int() {
            GDALDataType::GDT_CFloat32
        } else if gdal_type == GDALDataType::GDT_CFloat64.to_c_int() {
            GDALDataType::GDT_CFloat64
        } else {
            GDALDataType::GDT_Unknown
        }
    }

    /// The C code of the data type.
    pub fn to_c_int(self) -> (n: i32)
        ensures
            n == gdal_data_type_code(self),
    {
        match self {
            GDALDataType::GDT_Unknown => 0,
            GDALDataType::GDT_Byte => 1,
            GDALDataType::GDT_UInt16 => 2,
            GDALDataType::GDT_Int16 => 3,
            GDALDataType::GDT_UInt32 => 4,
            GDALDataType::GDT_Int32 => 5,
            GDALDataType::GDT_Float32 => 6,
            GDALDataType::GDT_Float64 => 7,
            GDALDataType::GDT_CInt16 => 8,
            GDALDataType::GDT_CInt32 => 9,
            GDALDataType::GDT_CFloat32 => 10,
            GDALDataType::GDT_CFloat64 => 11,
        }
    }
}

/// Reading back the code of a data type gives that type, for every type
/// but `GDT_Int16`, whose code reads back as `GDT_Unknown`.
pub proof fn law_data_type_code_round_trip(t: GDALDataType)
    ensures
        t != GDALDataType::GDT_Int16 ==> gdal_data_type_from_code(gdal_data_type_code(t)) == t,
        gdal_data_type_from_code(gdal_data_type_code(GDALDataType::GDT_Int16))
            == GDALDataType::GDT_Unknown,
{
}

/// Direction of a raster I/O operation.
#[derive(Clone, Copy, Debug, PartialEq, Eq)]
#[allow(non_camel_case_types)]
pub enum GDALRWFlag {
    /// Read data
    GF_Read,
    /// Write data
    GF_Write,
}

/// Access mode of an opened dataset.
#[derive(Clone, Copy, Debug, PartialEq, Eq)]
#[allow(non_camel_case_types)]
pub enum GDALAccess {
    /// Read only (no update) access
    GA_ReadOnly,
    /// Read/write access.
    GA_Update,
}

/// Resampling algorithms of GDAL's warper, in the order of their C codes.
#[derive(Clone, Copy, Debug, PartialEq, Eq)]
#[allow(non_camel_case_types)]
pub enum GDALResampleAlg {
    /// Nearest neighbour (select on one input pixel)
    GRA_NearestNeighbour,
    /// Bilinear (2x2 kernel)
    GRA_Bilinear,
    /// Cubic Convolution Approximation (4x4 kernel)
    GRA_Cubic,
    /// Cubic B-Spline Approximation (4x4 kernel)
    GRA_CubicSpline,
    /// Lanczos windowed sinc interpolation (6x6 kernel)
    GRA_Lanczos,
    /// Average (computes the average of all non-NODATA contributing pixels)
    GRA_Average,
    /// Mode (selects the value which appears most often of all the sampled points)
    GRA_Mode,
    /// Max (selects maximum of all non-NODATA contributing pixels)
    GRA_Max,
    /// Min (selects minimum of all non-NODATA contributing pixels)
    GRA_Min,
    /// Med (selects median of all non-NODATA contributing pixels)
    GRA_Med,
    /// Q1 (selects first quartile of all non-NODATA contributing pixels)
    GRA_Q1,
    /// Q3 (selects third quartile of all non-NODATA contributing pixels)
    GRA_Q3,
}

} // verus!

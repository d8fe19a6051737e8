//! Classes of the data types of GDAL's multidimensional arrays.

use vstd::prelude::*;
use crate::errors::{GdalError, Result};

verus! {

/// The class of an extended data type of a multidimensional array.
#[derive(Debug, Clone, Copy, PartialEq, Eq, Structural)]
pub enum ExtendedDataTypeClass {
    Compound,
    Numeric,
    String,
}

/// GDAL's `GDALExtendedDataTypeClass` code of each class (`GEDTC_*`).
pub open spec fn class_code(c: ExtendedDataTypeClass) -> u32 {
    match c {
        ExtendedDataTypeClass::Numeric => 0,
        ExtendedDataTypeClass::String => 1,
        ExtendedDataTypeClass::Compound => 2,
    }
}

/// The name of each class.
pub open spec fn class_name(c: ExtendedDataTypeClass) -> Seq<char> {
    match c {
        ExtendedDataTypeClass::Compound => "Compound"@,
        ExtendedDataTypeClass::Numeric => "Numeric"@,
        ExtendedDataTypeClass::String => "String"@,
    }
}

impl ExtendedDataTypeClass {
    pub fn is_string(&self) -> (b: bool)
        ensures
            b == (*self == ExtendedDataTypeClass::String),
    {
        matches!(self, ExtendedDataTypeClass::String)
    }

    pub fn is_numeric(&self) -> (b: bool)
        ensures
            b == (*self == ExtendedDataTypeClass::Numeric),
    {
        matches!(self, ExtendedDataTypeClass::Numeric)
    }

    pub fn is_compound(&self) -> (b: bool)
        ensures
            b == (*self == ExtendedDataTypeClass::Compound),
    {
        matches!(self, ExtendedDataTypeClass::Compound)
    }

    /// The class of GDAL's code `class`, which must be one of the three codes.
    pub fn from_gdal(class: u32) -> (c: Self)
        requires
            class <= 2,
        ensures
            class_code(c) == class,
    {
        match class {
            0 => ExtendedDataTypeClass::Numeric,
            1 => ExtendedDataTypeClass::String,
            _ => ExtendedDataTypeClass::Compound,
        }
    }

    /// GDAL's code of the class.
    pub fn to_gdal(&self) -> (n: u32)
        ensures
            n == class_code(*self),
    {
        match self {
            ExtendedDataTypeClass::Numeric => 0,
            ExtendedDataTypeClass::String => 1,
            ExtendedDataTypeClass::Compound => 2,
        }
    }

    /// The name of the class: `Compound`, `Numeric` or `String`.
    pub fn to_string(&self) -> (s: String)
        ensures
            s@ == class_name(*self),
    {
        match self {
            ExtendedDataTypeClass::Compound => String::from_str("Compound"),
            ExtendedDataTypeClass::Numeric => String::from_str("Numeric"),
            ExtendedDataTypeClass::String => String::from_str("String"),
        }
    }
}

/// Checks that an array's data type has the class that a read handles:
/// numbers for reads into typed buffers, strings for string reads.
///
/// Fails with `UnsupportedMdDataType`, naming the array's class and the
/// GDAL routine `method_name`, when the classes differ.
pub fn check_data_type_class(
    class: ExtendedDataTypeClass,
    expected: ExtendedDataTypeClass,
    method_name: &'static str,
) -> (r: Result<()>)
    ensures
        r is Ok <==> class == expected,
        r matches Err(e) ==> e matches GdalError::UnsupportedMdDataType { data_type, method_name: m }
            && data_type == class && m == method_name,
{
    if class == expected {
        Ok(())
    } else {
        Err(GdalError::UnsupportedMdDataType { data_type: class, method_name })
    }
}

/// Each class and its code determine each other.
pub proof fn law_class_code_round_trip(a: ExtendedDataTypeClass, b: ExtendedDataTypeClass)
    ensures
        class_code(a) <= 2,
        class_code(a) == class_code(b) ==> a == b,
{
}

} // verus!

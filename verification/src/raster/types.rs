//! Descriptors of the pixel data types that the bindings support.

use vstd::prelude::*;
use crate::errors::{GdalError, Result};
use crate::text::{decimal, decimal_string};

verus! {

/// A pixel data type that the bindings support, held as GDAL's
/// `GDALDataType` code.
#[derive(Clone, Copy, Debug, PartialEq, Eq, Structural)]
pub struct GdalTypeDescriptor {
    code: u32,
}

/// The `GDALDataType` codes of the supported types, in the order that
/// `available_types` lists them: Byte, UInt16, Int16, UInt32, Int32, UInt64,
/// Int64, Float32 and Float64.
pub open spec fn available_codes() -> Seq<u32> {
    seq![1u32, 2, 3, 4, 5, 12, 13, 6, 7]
}

/// The message of the error for a code that names no supported type.
pub open spec fn unknown_type_message(code: u32) -> Seq<char> {
    "unknown GDALDataType "@ + decimal(code as nat)
}

impl GdalTypeDescriptor {
    /// The `GDALDataType` code of the descriptor.
    pub closed spec fn code(&self) -> u32 {
        self.code
    }

    #[verifier::type_invariant]
    closed spec fn is_available(self) -> bool {
        available_codes().contains(self.code)
    }

    /// Get the `GDALDataType` ordinal value.
    pub fn gdal_type(&self) -> (c: u32)
        ensures
            c == self.code(),
            available_codes().contains(c),
    {
        proof {
            use_type_invariant(self);
        }
        self.code
    }

    /// The descriptor of the `GDALDataType` code `value`.
    ///
    /// Fails with `BadArgument` when `value` is not the code of a supported type.
    pub fn try_from(value: u32) -> (r: Result<Self>)
        ensures
            r is Ok <==> available_codes().contains(value),
            r matches Ok(d) ==> d.code() == value,
            r matches Err(e) ==> e matches GdalError::BadArgument(m) && m@ == unknown_type_message(
                value,
            ),
    {
        let codes: [u32; 9] = [1, 2, 3, 4, 5, 12, 13, 6, 7];
        assert(codes@ == available_codes());
        let mut i: usize = 0;
        while i < 9
            invariant
                codes@ == available_codes(),
                i <= 9,
                forall|k: int| 0 <= k < i ==> codes@[k] != value,
            decreases 9 - i,
        {
            if codes[i] == value {
                assert(available_codes()[i as int] == value);
                return Ok(GdalTypeDescriptor { code: value });
            }
            i = i + 1;
        }
        let mut m = String::from_str("unknown GDALDataType ");
        let digits = decimal_string(value as u64);
        m.append(digits.as_str());
        Err(GdalError::BadArgument(m))
    }

    /// The supported data types (see `available_codes`).
    pub fn available_types() -> (v: Vec<GdalTypeDescriptor>)
        ensures
            v@.len() == available_codes().len(),
            forall|i: int| 0 <= i < v@.len() ==> (#[trigger] v@[i]).code() == available_codes()[i],
    {
        let codes: [u32; 9] = [1, 2, 3, 4, 5, 12, 13, 6, 7];
        assert(codes@ == available_codes());
        let mut v: Vec<GdalTypeDescriptor> = Vec::new();
        let mut i: usize = 0;
        while i < 9
            invariant
                codes@ == available_codes(),
                i <= 9,
                v@.len() == i,
                forall|k: int| 0 <= k < i ==> (#[trigger] v@[k]).code() == available_codes()[k],
            decreases 9 - i,
        {
            let c = codes[i];
            assert(available_codes().contains(c)) by {
                assert(available_codes()[i as int] == c);
            }
            v.push(GdalTypeDescriptor { code: c });
            i = i + 1;
        }
        v
    }
}

/// Converting a supported type's code back gives the same descriptor.
pub proof fn law_descriptor_code_round_trip(d: GdalTypeDescriptor, e: GdalTypeDescriptor)
    ensures
        d.code() == e.code() ==> d == e,
{
}

} // verus!

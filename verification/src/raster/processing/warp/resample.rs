//! The resampling algorithms of GDAL's warper.

use vstd::prelude::*;
use crate::errors::{GdalError, Result};
use crate::text::{decimal, decimal_string};
use crate::raster::rasterband::{resample_alg_code, ResampleAlg};

verus! {

/// GDAL Warp Resampling Algorithm
#[derive(Debug, Clone, Copy, PartialEq, Eq, Structural)]
pub enum WarpResampleAlg {
    /// Nearest neighbour (select on one input pixel)
    NearestNeighbour,
    /// Bilinear (2x2 kernel)
    Bilinear,
    /// Cubic Convolution Approximation (4x4 kernel)
    Cubic,
    /// Cubic B-Spline Approximation (4x4 kernel)
    CubicSpline,
    /// Lanczos windowed sinc interpolation (6x6 kernel)
    Lanczos,
    /// Average (computes the weighted average of all non-NODATA contributing pixels)
    Average,
    /// Mode (selects the value which appears most often of all the sampled points)
    Mode,
    /// Max (selects maximum of all non-NODATA contributing pixels)
    Max,
    /// Min (selects minimum of all non-NODATA contributing pixels)
    Min,
    /// Med (selects median of all non-NODATA contributing pixels)
    Med,
    /// Q1 (selects first quartile of all non-NODATA contributing pixels)
    Q1,
    /// Q3 (selects third quartile of all non-NODATA contributing pixels)
    Q3,
    /// Sum (weighed sum of all non-NODATA contributing pixels). Added in GDAL 3.1
    Sum,
    /// RMS (weighted root mean square (quadratic mean) of all non-NODATA contributing pixels)
    RMS,
}

/// GDAL's `GDALResampleAlg` code of each algorithm (`GRA_*`); the code 7
/// (Gauss) has no warper counterpart.
pub open spec fn warp_alg_code(a: WarpResampleAlg) -> u32 {
    match a {
        WarpResampleAlg::NearestNeighbour => 0,
        WarpResampleAlg::Bilinear => 1,
        WarpResampleAlg::Cubic => 2,
        WarpResampleAlg::CubicSpline => 3,
        WarpResampleAlg::Lanczos => 4,
        WarpResampleAlg::Average => 5,
        WarpResampleAlg::Mode => 6,
        WarpResampleAlg::Max => 8,
        WarpResampleAlg::Min => 9,
        WarpResampleAlg::Med => 10,
        WarpResampleAlg::Q1 => 11,
        WarpResampleAlg::Q3 => 12,
        WarpResampleAlg::Sum => 13,
        WarpResampleAlg::RMS => 14,
    }
}

/// Whether some algorithm has the code `c`.
pub open spec fn is_warp_alg_code(c: u32) -> bool {
    c <= 14 && c != 7
}

/// The message of the error for a code that names no algorithm.
pub open spec fn unsupported_ordinal_message(c: u32) -> Seq<char> {
    "Ordinal "@ + decimal(c as nat) + " does not map to a supported WarpResampleAlg"@
}

impl Default for WarpResampleAlg {
    fn default() -> (a: Self)
        ensures
            a == WarpResampleAlg::NearestNeighbour,
    {
        WarpResampleAlg::NearestNeighbour
    }
}

impl WarpResampleAlg {
    /// GDAL's code of the algorithm.
    pub fn to_gdal(&self) -> (c: u32)
        ensures
            c == warp_alg_code(*self),
    {
        match self {
            WarpResampleAlg::NearestNeighbour => 0,
            WarpResampleAlg::Bilinear => 1,
            WarpResampleAlg::Cubic => 2,
            WarpResampleAlg::CubicSpline => 3,
            WarpResampleAlg::Lanczos => 4,
            WarpResampleAlg::Average => 5,
            WarpResampleAlg::Mode => 6,
            WarpResampleAlg::Max => 8,
            WarpResampleAlg::Min => 9,
            WarpResampleAlg::Med => 10,
            WarpResampleAlg::Q1 => 11,
            WarpResampleAlg::Q3 => 12,
            WarpResampleAlg::Sum => 13,
            WarpResampleAlg::RMS => 14,
        }
    }

    /// The algorithm of GDAL's code `alg`.
    ///
    /// Fails with `BadArgument` when no algorithm has that code.
    pub fn from_gdal(alg: u32) -> (r: Result<Self>)
        ensures
            r is Ok <==> is_warp_alg_code(alg),
            r matches Ok(a) ==> warp_alg_code(a) == alg,
            r matches Err(e) ==> e matches GdalError::BadArgument(m) && m@
                == unsupported_ordinal_message(alg),
    {
        match alg {
            0 => Ok(WarpResampleAlg::NearestNeighbour),
            1 => Ok(WarpResampleAlg::Bilinear),
            2 => Ok(WarpResampleAlg::Cubic),
            3 => Ok(WarpResampleAlg::CubicSpline),
            4 => Ok(WarpResampleAlg::Lanczos),
            5 => Ok(WarpResampleAlg::Average),
            6 => Ok(WarpResampleAlg::Mode),
            8 => Ok(WarpResampleAlg::Max),
            9 => Ok(WarpResampleAlg::Min),
            10 => Ok(WarpResampleAlg::Med),
            11 => Ok(WarpResampleAlg::Q1),
            12 => Ok(WarpResampleAlg::Q3),
            13 => Ok(WarpResampleAlg::Sum),
            14 => Ok(WarpResampleAlg::RMS),
            o => {
                let mut m = String::from_str("Ordinal ");
                let digits = decimal_string(o as u64);
                m.append(digits.as_str());
                m.append(" does not map to a supported WarpResampleAlg");
                Err(GdalError::BadArgument(m))
            },
        }
    }
}

/// Reading back the code of an algorithm gives the algorithm, and the codes
/// of distinct algorithms differ.
pub proof fn law_warp_alg_code_round_trip(a: WarpResampleAlg, b: WarpResampleAlg)
    ensures
        is_warp_alg_code(warp_alg_code(a)),
        warp_alg_code(a) == warp_alg_code(b) ==> a == b,
{
}

/// The algorithms in the order in which GDAL's `GDALResampleAlg` declares its
/// `GRA_*` values: numbered from 0, with 7 (`GRA_Gauss`) left out, which the
/// warper does not take.
pub open spec fn gra_order() -> Seq<WarpResampleAlg> {
    seq![
        WarpResampleAlg::NearestNeighbour,
        WarpResampleAlg::Bilinear,
        WarpResampleAlg::Cubic,
        WarpResampleAlg::CubicSpline,
        WarpResampleAlg::Lanczos,
        WarpResampleAlg::Average,
        WarpResampleAlg::Mode,
        WarpResampleAlg::Max,
        WarpResampleAlg::Min,
        WarpResampleAlg::Med,
        WarpResampleAlg::Q1,
        WarpResampleAlg::Q3,
        WarpResampleAlg::Sum,
        WarpResampleAlg::RMS,
    ]
}

/// Each warp algorithm's code is GDAL's `GRA_*` value for it: its position in
/// GDAL's declaration, counting the left-out `GRA_Gauss`; every algorithm is
/// listed once.
pub proof fn law_warp_codes_are_gra_values()
    ensures
        forall|i: int|
            0 <= i < gra_order().len() ==> warp_alg_code(#[trigger] gra_order()[i]) == (if i < 7 {
                i
            } else {
                i + 1
            }),
        forall|a: WarpResampleAlg| gra_order().contains(a),
{
    let o = gra_order();
    assert forall|a: WarpResampleAlg| o.contains(a) by {
        let c = warp_alg_code(a) as int;
        let i = if c < 7 {
            c
        } else {
            c - 1
        };
        assert(o[i] == a);
    }
}

/// The raster I/O algorithm of the same kernel as a warp algorithm, where
/// raster I/O has one.
pub open spec fn raster_io_alg(a: WarpResampleAlg) -> Option<ResampleAlg> {
    match a {
        WarpResampleAlg::NearestNeighbour => Some(ResampleAlg::NearestNeighbour),
        WarpResampleAlg::Bilinear => Some(ResampleAlg::Bilinear),
        WarpResampleAlg::Cubic => Some(ResampleAlg::Cubic),
        WarpResampleAlg::CubicSpline => Some(ResampleAlg::CubicSpline),
        WarpResampleAlg::Lanczos => Some(ResampleAlg::Lanczos),
        WarpResampleAlg::Average => Some(ResampleAlg::Average),
        WarpResampleAlg::Mode => Some(ResampleAlg::Mode),
        _ => None,
    }
}

/// GDAL numbers the kernels that raster I/O and the warper share alike
/// (`GRIORA_Bilinear` and `GRA_Bilinear` are both 1, and so on): a warp
/// algorithm and its raster I/O counterpart have the same code, and reading
/// that code as a warp algorithm gives the warp algorithm back.
pub proof fn law_shared_kernels_share_codes(a: WarpResampleAlg)
    ensures
        raster_io_alg(a) matches Some(r) ==> resample_alg_code(r) == warp_alg_code(a),
        raster_io_alg(a) is Some <==> warp_alg_code(a) < 7,
{
}

} // verus!

//! Values describing raster bands: mask flags, color interpretations,
//! color table entries and I/O resampling algorithms.

use vstd::prelude::*;
use crate::errors::{GdalError, Result};

verus! {

/// Resampling algorithms used throughout various GDAL raster I/O operations.
#[derive(Debug, Copy, Clone, PartialEq, Eq)]
pub enum ResampleAlg {
    /// Nearest neighbour
    NearestNeighbour,
    /// Bilinear (2x2 kernel)
    Bilinear,
    /// Cubic Convolution Approximation (4x4 kernel)
    Cubic,
    /// Cubic B-Spline Approximation (4x4 kernel)
    CubicSpline,
    /// Lanczos windowed sinc interpolation (6x6 kernel)
    Lanczos,
    /// Average
    Average,
    /// Mode (selects the value which appears most often of all the sampled points)
    Mode,
    /// Gauss blurring
    Gauss,
}

/// The `GDALRIOResampleAlg` code of `a`.
pub open spec fn resample_alg_code(a: ResampleAlg) -> u32 {
    match a {
        ResampleAlg::NearestNeighbour => 0,
        ResampleAlg::Bilinear => 1,
        ResampleAlg::Cubic => 2,
        ResampleAlg::CubicSpline => 3,
        ResampleAlg::Lanczos => 4,
        ResampleAlg::Average => 5,
        ResampleAlg::Mode => 6,
        ResampleAlg::Gauss => 7,
    }
}

impl ResampleAlg {
    /// The code of the algorithm in GDAL's `GDALRasterIOExtraArg`.
    pub fn to_gdal(&self) -> (c: u32)
        ensures
            c == resample_alg_code(*self),
    {
        match self {
            ResampleAlg::NearestNeighbour => 0,
            ResampleAlg::Bilinear => 1,
            ResampleAlg::Cubic => 2,
            ResampleAlg::CubicSpline => 3,
            ResampleAlg::Lanczos => 4,
            ResampleAlg::Average => 5,
            ResampleAlg::Mode => 6,
            ResampleAlg::Gauss => 7,
        }
    }
}

/// Whether bit `k` of the two's complement representation of `flags` is set.
pub open spec fn bit_set(flags: i32, k: u32) -> bool {
    ((flags as u32) >> k) & 1u32 == 1u32
}

/// Wrapper type for GDAL mask flags. From the GDAL docs:
/// - `GMF_ALL_VALID` (bit 0): There are no invalid pixels, all mask values will be 255.
/// - `GMF_PER_DATASET` (bit 1): The mask band is shared between all bands on the dataset.
/// - `GMF_ALPHA` (bit 2): The mask band is actually an alpha band and may have values
///   other than 0 and 255.
/// - `GMF_NODATA` (bit 3): Indicates the mask is actually being generated from nodata
///   values (mutually exclusive of `GMF_ALPHA`).
pub struct GdalMaskFlags(i32);

impl GdalMaskFlags {
    /// The flags of the given bits.
    pub fn from_bits(flags: i32) -> (m: Self)
        ensures
            m.bits() == flags,
    {
        GdalMaskFlags(flags)
    }

    /// The bits of the flags.
    pub closed spec fn bits(&self) -> i32 {
        self.0
    }

    /// `GMF_ALL_VALID` is set.
    pub fn is_all_valid(&self) -> (b: bool)
        ensures
            b == bit_set(self.bits(), 0),
    {
        let x = self.0;
        assert(((x & 0x01i32) != 0) == ((((x as u32) >> 0u32) & 1u32) == 1u32)) by (bit_vector);
        x & 0x01 != 0
    }

    /// `GMF_PER_DATASET` is set.
    pub fn is_per_dataset(&self) -> (b: bool)
        ensures
            b == bit_set(self.bits(), 1),
    {
        let x = self.0;
        assert(((x & 0x02i32) != 0) == ((((x as u32) >> 1u32) & 1u32) == 1u32)) by (bit_vector);
        x & 0x02 != 0
    }

    /// `GMF_ALPHA` is set.
    pub fn is_alpha(&self) -> (b: bool)
        ensures
            b == bit_set(self.bits(), 2),
    {
        let x = self.0;
        assert(((x & 0x04i32) != 0) == ((((x as u32) >> 2u32) & 1u32) == 1u32)) by (bit_vector);
        x & 0x04 != 0
    }

    /// `GMF_NODATA` is set.
    pub fn is_nodata(&self) -> (b: bool)
        ensures
            b == bit_set(self.bits(), 3),
    {
        let x = self.0;
        assert(((x & 0x08i32) != 0) == ((((x as u32) >> 3u32) & 1u32) == 1u32)) by (bit_vector);
        x & 0x08 != 0
    }

    /// The flags with which a new mask band is created: `GMF_PER_DATASET`
    /// when it is shared between all bands, none otherwise.
    pub fn create_mask_flags(shared_between_all_bands: bool) -> (f: i32)
        ensures
            f == (if shared_between_all_bands {
                2i32
            } else {
                0i32
            }),
    {
        if shared_between_all_bands {
            0x02
        } else {
            0x00
        }
    }
}

/// Represents a color interpretation of a RasterBand
#[derive(Debug, Clone, Copy, PartialEq, Eq, Structural)]
pub enum ColorInterpretation {
    /// Undefined
    Undefined,
    /// Grayscale
    GrayIndex,
    /// Paletted (see associated color table)
    PaletteIndex,
    /// Red band of RGBA image
    RedBand,
    /// Green band of RGBA image
    GreenBand,
    /// Blue band of RGBA image
    BlueBand,
    /// Alpha (0=transparent, 255=opaque)
    AlphaBand,
    /// Hue band of HLS image
    HueBand,
    /// Saturation band of HLS image
    SaturationBand,
    /// Lightness band of HLS image
    LightnessBand,
    /// Cyan band of CMYK image
    CyanBand,
    /// Magenta band of CMYK image
    MagentaBand,
    /// Yellow band of CMYK image
    YellowBand,
    /// Black band of CMYK image
    BlackBand,
    /// Y Luminance
    YCbCrSpaceYBand,
    /// Cb Chroma
    YCbCrSpaceCbBand,
    /// Cr Chroma
    YCbCrSpaceCrBand,
}

/// The `GDALColorInterp` code of `c`: its position in the declaration.
pub open spec fn color_interp_code(c: ColorInterpretation) -> u32 {
    match c {
        ColorInterpretation::Undefined => 0,
        ColorInterpretation::GrayIndex => 1,
        ColorInterpretation::PaletteIndex => 2,
        ColorInterpretation::RedBand => 3,
        ColorInterpretation::GreenBand => 4,
        ColorInterpretation::BlueBand => 5,
        ColorInterpretation::AlphaBand => 6,
        ColorInterpretation::HueBand => 7,
        ColorInterpretation::SaturationBand => 8,
        ColorInterpretation::LightnessBand => 9,
        ColorInterpretation::CyanBand => 10,
        ColorInterpretation::MagentaBand => 11,
        ColorInterpretation::YellowBand => 12,
        ColorInterpretation::BlackBand => 13,
        ColorInterpretation::YCbCrSpaceYBand => 14,
        ColorInterpretation::YCbCrSpaceCbBand => 15,
        ColorInterpretation::YCbCrSpaceCrBand => 16,
    }
}

impl ColorInterpretation {
    /// Creates a color interpretation from its C API code; `None` for codes
    /// outside 0 to 16.
    pub fn from_c_int(color_interpretation: u32) -> (r: Option<Self>)
        ensures
            r matches Some(c) ==> color_interp_code(c) == color_interpretation,
            r is None <==> color_interpretation > 16,
    {
        match color_interpretation {
            0 => Some(ColorInterpretation::Undefined),
            1 => Some(ColorInterpretation::GrayIndex),
            2 => Some(ColorInterpretation::PaletteIndex),
            3 => Some(ColorInterpretation::RedBand),
            4 => Some(ColorInterpretation::GreenBand),
            5 => Some(ColorInterpretation::BlueBand),
            6 => Some(ColorInterpretation::AlphaBand),
            7 => Some(ColorInterpretation::HueBand),
            8 => Some(ColorInterpretation::SaturationBand),
            9 => Some(ColorInterpretation::LightnessBand),
            10 => Some(ColorInterpretation::CyanBand),
            11 => Some(ColorInterpretation::MagentaBand),
            12 => Some(ColorInterpretation::YellowBand),
            13 => Some(ColorInterpretation::BlackBand),
            14 => Some(ColorInterpretation::YCbCrSpaceYBand),
            15 => Some(ColorInterpretation::YCbCrSpaceCbBand),
            16 => Some(ColorInterpretation::YCbCrSpaceCrBand),
            _ => None,
        }
    }

    /// Returns the C API code of this color interpretation.
    pub fn c_int(&self) -> (n: u32)
        ensures
            n == color_interp_code(*self),
    {
        match self {
            ColorInterpretation::Undefined => 0,
            ColorInterpretation::GrayIndex => 1,
            ColorInterpretation::PaletteIndex => 2,
            ColorInterpretation::RedBand => 3,
            ColorInterpretation::GreenBand => 4,
            ColorInterpretation::BlueBand => 5,
            ColorInterpretation::AlphaBand => 6,
            ColorInterpretation::HueBand => 7,
            ColorInterpretation::SaturationBand => 8,
            ColorInterpretation::LightnessBand => 9,
            ColorInterpretation::CyanBand => 10,
            ColorInterpretation::MagentaBand => 11,
            ColorInterpretation::YellowBand => 12,
            ColorInterpretation::BlackBand => 13,
            ColorInterpretation::YCbCrSpaceYBand => 14,
            ColorInterpretation::YCbCrSpaceCbBand => 15,
            ColorInterpretation::YCbCrSpaceCrBand => 16,
        }
    }
}

/// Distinct color interpretations have distinct codes, so that a code
/// names one interpretation at most.
pub proof fn law_color_interp_code_injective(a: ColorInterpretation, b: ColorInterpretation)
    ensures
        color_interp_code(a) == color_interp_code(b) ==> a == b,
{
}

/// Types of color interpretations for a color table.
#[derive(Copy, Clone, Debug, PartialEq, Eq, Structural)]
pub enum PaletteInterpretation {
    /// Grayscale
    Gray,
    /// Red, Green, Blue and Alpha
    Rgba,
    /// Cyan, Magenta, Yellow and Black
    Cmyk,
    /// Hue, Lightness and Saturation
    Hls,
}

/// The `GDALPaletteInterp` code of `p`.
pub open spec fn palette_interp_code(p: PaletteInterpretation) -> u32 {
    match p {
        PaletteInterpretation::Gray => 0,
        PaletteInterpretation::Rgba => 1,
        PaletteInterpretation::Cmyk => 2,
        PaletteInterpretation::Hls => 3,
    }
}

impl PaletteInterpretation {
    /// Creates a palette interpretation from its C API code (0 to 3).
    pub fn from_c_int(palette_interpretation: u32) -> (p: Self)
        requires
            palette_interpretation <= 3,
        ensures
            palette_interp_code(p) == palette_interpretation,
    {
        match palette_interpretation {
            0 => PaletteInterpretation::Gray,
            1 => PaletteInterpretation::Rgba,
            2 => PaletteInterpretation::Cmyk,
            _ => PaletteInterpretation::Hls,
        }
    }

    /// Returns the C API code of this palette interpretation.
    pub fn c_int(&self) -> (n: u32)
        ensures
            n == palette_interp_code(*self),
    {
        match self {
            PaletteInterpretation::Gray => 0,
            PaletteInterpretation::Rgba => 1,
            PaletteInterpretation::Cmyk => 2,
            PaletteInterpretation::Hls => 3,
        }
    }
}

/// Distinct palette interpretations have distinct codes.
pub proof fn law_palette_interp_code_injective(a: PaletteInterpretation, b: PaletteInterpretation)
    ensures
        palette_interp_code(a) == palette_interp_code(b) ==> a == b,
{
}

/// Grayscale color table entry.
#[derive(Copy, Clone, Debug, PartialEq, Eq, Structural)]
pub struct GrayEntry {
    pub g: i16,
}

/// Red, green, blue, alpha color table entry.
#[derive(Copy, Clone, Debug, PartialEq, Eq, Structural)]
pub struct RgbaEntry {
    pub r: i16,
    pub g: i16,
    pub b: i16,
    pub a: i16,
}

/// Cyan, magenta, yellow, black color table entry.
#[derive(Copy, Clone, Debug, PartialEq, Eq, Structural)]
pub struct CmykEntry {
    pub c: i16,
    pub m: i16,
    pub y: i16,
    pub k: i16,
}

/// Hue, lightness, saturation color table entry.
#[derive(Copy, Clone, Debug, PartialEq, Eq, Structural)]
pub struct HlsEntry {
    pub h: i16,
    pub l: i16,
    pub s: i16,
}

/// The four components of a color entry as GDAL's C API stores them
/// (`GDALColorEntry`); what they mean depends on the palette interpretation.
#[derive(Copy, Clone, Debug, PartialEq, Eq, Structural)]
pub struct GdalColorEntry {
    pub c1: i16,
    pub c2: i16,
    pub c3: i16,
    pub c4: i16,
}

/// Options for defining `ColorInterpretation::PaletteIndex` entries in a color table.
#[derive(Copy, Clone, Debug, PartialEq, Eq, Structural)]
pub enum ColorEntry {
    Gray(GrayEntry),
    Rgba(RgbaEntry),
    Cmyk(CmykEntry),
    Hls(HlsEntry),
}

/// The palette interpretation of the variant of `e`.
pub open spec fn entry_interp(e: ColorEntry) -> PaletteInterpretation {
    match e {
        ColorEntry::Gray(_) => PaletteInterpretation::Gray,
        ColorEntry::Rgba(_) => PaletteInterpretation::Rgba,
        ColorEntry::Cmyk(_) => PaletteInterpretation::Cmyk,
        ColorEntry::Hls(_) => PaletteInterpretation::Hls,
    }
}

/// The C components of `e`: its components in order, and 0 in the
/// components that its variant does not use.
pub open spec fn entry_components(e: ColorEntry) -> GdalColorEntry {
    match e {
        ColorEntry::Gray(x) => GdalColorEntry { c1: x.g, c2: 0, c3: 0, c4: 0 },
        ColorEntry::Rgba(x) => GdalColorEntry { c1: x.r, c2: x.g, c3: x.b, c4: x.a },
        ColorEntry::Cmyk(x) => GdalColorEntry { c1: x.c, c2: x.m, c3: x.y, c4: x.k },
        ColorEntry::Hls(x) => GdalColorEntry { c1: x.h, c2: x.l, c3: x.s, c4: 0 },
    }
}

/// The entry that the C components `e` stand for under `interp`: the leading
/// components in order; components beyond those of the variant are ignored.
pub open spec fn entry_from_components(e: GdalColorEntry, interp: PaletteInterpretation) -> ColorEntry {
    match interp {
        PaletteInterpretation::Gray => ColorEntry::Gray(GrayEntry { g: e.c1 }),
        PaletteInterpretation::Rgba => ColorEntry::Rgba(RgbaEntry { r: e.c1, g: e.c2, b: e.c3, a: e.c4 }),
        PaletteInterpretation::Cmyk => ColorEntry::Cmyk(CmykEntry { c: e.c1, m: e.c2, y: e.c3, k: e.c4 }),
        PaletteInterpretation::Hls => ColorEntry::Hls(HlsEntry { h: e.c1, l: e.c2, s: e.c3 }),
    }
}

impl ColorEntry {
    /// Instantiate a greyscale color entry
    pub fn grey(g: i16) -> (e: Self)
        ensures
            e == ColorEntry::Gray(GrayEntry { g }),
    {
        ColorEntry::Gray(GrayEntry { g })
    }

    /// Instantiate an red, green, blue, alpha color entry
    pub fn rgba(r: i16, g: i16, b: i16, a: i16) -> (e: Self)
        ensures
            e == ColorEntry::Rgba(RgbaEntry { r, g, b, a }),
    {
        ColorEntry::Rgba(RgbaEntry { r, g, b, a })
    }

    /// Instantiate a cyan, magenta, yellow, black color entry
    pub fn cmyk(c: i16, m: i16, y: i16, k: i16) -> (e: Self)
        ensures
            e == ColorEntry::Cmyk(CmykEntry { c, m, y, k }),
    {
        ColorEntry::Cmyk(CmykEntry { c, m, y, k })
    }

    /// Instantiate a hue, lightness, saturation color entry
    pub fn hls(h: i16, l: i16, s: i16) -> (e: Self)
        ensures
            e == ColorEntry::Hls(HlsEntry { h, l, s }),
    {
        ColorEntry::Hls(HlsEntry { h, l, s })
    }

    /// Get the palette interpretation describing `self`.
    pub fn palette_interpretation(&self) -> (p: PaletteInterpretation)
        ensures
            p == entry_interp(*self),
    {
        match self {
            ColorEntry::Gray(_) => PaletteInterpretation::Gray,
            ColorEntry::Rgba(_) => PaletteInterpretation::Rgba,
            ColorEntry::Cmyk(_) => PaletteInterpretation::Cmyk,
            ColorEntry::Hls(_) => PaletteInterpretation::Hls,
        }
    }

    /// Create from the C components of an entry read under `interp`.
    pub fn from_gdal(e: GdalColorEntry, interp: PaletteInterpretation) -> (c: ColorEntry)
        ensures
            c == entry_from_components(e, interp),
    {
        match interp {
            PaletteInterpretation::Gray => ColorEntry::Gray(GrayEntry { g: e.c1 }),
            PaletteInterpretation::Rgba => ColorEntry::Rgba(
                RgbaEntry { r: e.c1, g: e.c2, b: e.c3, a: e.c4 },
            ),
            PaletteInterpretation::Cmyk => ColorEntry::Cmyk(
                CmykEntry { c: e.c1, m: e.c2, y: e.c3, k: e.c4 },
            ),
            PaletteInterpretation::Hls => ColorEntry::Hls(HlsEntry { h: e.c1, l: e.c2, s: e.c3 }),
        }
    }

    /// The C components of the entry (see `entry_components`).
    pub fn to_gdal(&self) -> (g: GdalColorEntry)
        ensures
            g == entry_components(*self),
    {
        match self {
            ColorEntry::Gray(e) => GdalColorEntry { c1: e.g, c2: 0, c3: 0, c4: 0 },
            ColorEntry::Rgba(e) => GdalColorEntry { c1: e.r, c2: e.g, c3: e.b, c4: e.a },
            ColorEntry::Cmyk(e) => GdalColorEntry { c1: e.c, c2: e.m, c3: e.y, c4: e.k },
            ColorEntry::Hls(e) => GdalColorEntry { c1: e.h, c2: e.l, c3: e.s, c4: 0 },
        }
    }
}

/// Writing an entry into C components and reading them back under the
/// entry's own palette interpretation gives the entry back.
pub proof fn law_color_entry_round_trip(e: ColorEntry)
    ensures
        entry_from_components(entry_components(e), entry_interp(e)) == e,
{
}

/// Reading C components under an interpretation and writing the entry back
/// keeps the components that the interpretation uses and clears the others.
pub proof fn law_color_components_round_trip(g: GdalColorEntry, interp: PaletteInterpretation)
    ensures
        entry_interp(entry_from_components(g, interp)) == interp,
        entry_components(entry_from_components(g, interp)) == (match interp {
            PaletteInterpretation::Gray => GdalColorEntry { c1: g.c1, c2: 0, c3: 0, c4: 0 },
            PaletteInterpretation::Hls => GdalColorEntry { c4: 0, ..g },
            _ => g,
        }),
{
}

/// The message of the error for a color ramp between entries of different
/// palette interpretations.
pub open spec fn ramp_mismatch_message() -> Seq<char> {
    "start_color and end_color must have the same palette_interpretation"@
}

/// The palette interpretation of the color table of a ramp from
/// `start_color` to `end_color`: theirs, when they share it.
///
/// Fails with `BadArgument` when their palette interpretations differ.
pub fn color_ramp_interpretation(start_color: &ColorEntry, end_color: &ColorEntry) -> (r: Result<
    PaletteInterpretation,
>)
    ensures
        r is Ok <==> entry_interp(*start_color) == entry_interp(*end_color),
        r matches Ok(p) ==> p == entry_interp(*start_color),
        r matches Err(e) ==> e matches GdalError::BadArgument(m) && m@ == ramp_mismatch_message(),
{
    let p = start_color.palette_interpretation();
    if p != end_color.palette_interpretation() {
        Err(
            GdalError::BadArgument(
                String::from_str("start_color and end_color must have the same palette_interpretation"),
            ),
        )
    } else {
        Ok(p)
    }
}

/// The algorithms in the order in which GDAL's `GDALRIOResampleAlg` declares
/// its `GRIORA_*` values, which number them from 0.
pub open spec fn griora_order() -> Seq<ResampleAlg> {
    seq![
        ResampleAlg::NearestNeighbour,
        ResampleAlg::Bilinear,
        ResampleAlg::Cubic,
        ResampleAlg::CubicSpline,
        ResampleAlg::Lanczos,
        ResampleAlg::Average,
        ResampleAlg::Mode,
        ResampleAlg::Gauss,
    ]
}

/// Each algorithm's code is GDAL's `GRIORA_*` value for it: its position in
/// GDAL's declaration, which lists every algorithm once; so distinct
/// algorithms have distinct codes.
pub proof fn law_resample_codes_are_griora_values()
    ensures
        forall|i: int| 0 <= i < griora_order().len() ==> resample_alg_code(#[trigger] griora_order()[i]) == i,
        forall|a: ResampleAlg| griora_order().contains(a),
        forall|a: ResampleAlg, b: ResampleAlg| resample_alg_code(a) == resample_alg_code(b) ==> a == b,
{
    let o = griora_order();
    assert forall|a: ResampleAlg| o.contains(a) by {
        match a {
            ResampleAlg::NearestNeighbour => assert(o[0] == a),
            ResampleAlg::Bilinear => assert(o[1] == a),
            ResampleAlg::Cubic => assert(o[2] == a),
            ResampleAlg::CubicSpline => assert(o[3] == a),
            ResampleAlg::Lanczos => assert(o[4] == a),
            ResampleAlg::Average => assert(o[5] == a),
            ResampleAlg::Mode => assert(o[6] == a),
            ResampleAlg::Gauss => assert(o[7] == a),
        }
    }
}

/// The interpretations in the order in which GDAL's `GDALColorInterp`
/// declares its `GCI_*` values, which number them from 0.
pub open spec fn gci_order() -> Seq<ColorInterpretation> {
    seq![
        ColorInterpretation::Undefined,
        ColorInterpretation::GrayIndex,
        ColorInterpretation::PaletteIndex,
        ColorInterpretation::RedBand,
        ColorInterpretation::GreenBand,
        ColorInterpretation::BlueBand,
        ColorInterpretation::AlphaBand,
        ColorInterpretation::HueBand,
        ColorInterpretation::SaturationBand,
        ColorInterpretation::LightnessBand,
        ColorInterpretation::CyanBand,
        ColorInterpretation::MagentaBand,
        ColorInterpretation::YellowBand,
        ColorInterpretation::BlackBand,
        ColorInterpretation::YCbCrSpaceYBand,
        ColorInterpretation::YCbCrSpaceCbBand,
        ColorInterpretation::YCbCrSpaceCrBand,
    ]
}

/// Each color interpretation's code is GDAL's `GCI_*` value for it: its
/// position in GDAL's declaration; every code from 0 to 16 reads back as the
/// interpretation at that position.
pub proof fn law_color_interp_codes_are_gci_values()
    ensures
        forall|i: int| 0 <= i < gci_order().len() ==> color_interp_code(#[trigger] gci_order()[i]) == i,
        forall|c: ColorInterpretation| gci_order().contains(c),
        gci_order().len() == 17,
{
    let o = gci_order();
    assert forall|c: ColorInterpretation| o.contains(c) by {
        assert(o[color_interp_code(c) as int] == c);
    }
}

/// The palette interpretations in the order in which GDAL's
/// `GDALPaletteInterp` declares its `GPI_*` values, which number them from 0.
pub open spec fn gpi_order() -> Seq<PaletteInterpretation> {
    seq![
        PaletteInterpretation::Gray,
        PaletteInterpretation::Rgba,
        PaletteInterpretation::Cmyk,
        PaletteInterpretation::Hls,
    ]
}

/// Each palette interpretation's code is GDAL's `GPI_*` value for it: its
/// position in GDAL's declaration (Gray, RGB, CMYK, HLS).
pub proof fn law_palette_codes_are_gpi_values()
    ensures
        forall|i: int| 0 <= i < gpi_order().len() ==> palette_interp_code(#[trigger] gpi_order()[i]) == i,
        forall|p: PaletteInterpretation| gpi_order().contains(p),
{
    let o = gpi_order();
    assert forall|p: PaletteInterpretation| o.contains(p) by {
        assert(o[palette_interp_code(p) as int] == p);
    }
}

/// The palette interpretation of a color entry and the code of that
/// interpretation agree with the entry's variant: grey entries are `GPI_Gray`
/// (0), RGBA `GPI_RGB` (1), CMYK `GPI_CMYK` (2) and HLS `GPI_HLS` (3).
pub proof fn law_entry_palette_codes(e: ColorEntry)
    ensures
        gpi_order()[palette_interp_code(entry_interp(e)) as int] == entry_interp(e),
        e is Gray ==> palette_interp_code(entry_interp(e)) == 0,
        e is Rgba ==> palette_interp_code(entry_interp(e)) == 1,
        e is Cmyk ==> palette_interp_code(entry_interp(e)) == 2,
        e is Hls ==> palette_interp_code(entry_interp(e)) == 3,
{
}

} // verus!

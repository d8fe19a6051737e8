//! Settings shared by the DEM routines of `raster::dem`.

use vstd::prelude::*;

use crate::cpl::{no_nul, CslStringList};
use crate::errors::GdalError;
use crate::text::{decimal, decimal_string, lemma_decimal_digits, all_digits, is_digit};

verus! {

/// DEM processor mode, as the name that GDAL's `GDALDEMProcessing` takes.
#[derive(Debug, Clone, Copy, PartialEq, Eq)]
pub enum DemAlg {
    /// Computes the azimuth that the slopes in some DEM data are facing.
    Aspect,
    /// Uses a configuration file to colorize a DEM dataset.
    ColorRelief,
    /// Performs hill-shade rendering of DEM data.
    Hillshade,
    /// Computes the roughness from DEM data.
    Roughness,
    /// Computes slope values from DEM data.
    Slope,
    /// Computes the Topographic Position Index from DEM data.
    Tpi,
    /// Computes the Terrain Ruggedness Index from DEM data.
    Tri,
}

/// The processing mode name of `a`.
pub open spec fn dem_alg_option(a: DemAlg) -> Seq<char> {
    match a {
        DemAlg::Aspect => "aspect"@,
        DemAlg::ColorRelief => "color-relief"@,
        DemAlg::Hillshade => "hillshade"@,
        DemAlg::Roughness => "roughness"@,
        DemAlg::Slope => "slope"@,
        DemAlg::Tpi => "TPI"@,
        DemAlg::Tri => "TRI"@,
    }
}

impl DemAlg {
    /// The processing mode name that `GDALDEMProcessing` takes.
    pub fn to_gdal_option(self) -> (s: &'static str)
        ensures
            s@ == dem_alg_option(self),
    {
        match self {
            DemAlg::Aspect => "aspect",
            DemAlg::ColorRelief => "color-relief",
            DemAlg::Hillshade => "hillshade",
            DemAlg::Roughness => "roughness",
            DemAlg::Slope => "slope",
            DemAlg::Tpi => "TPI",
            DemAlg::Tri => "TRI",
        }
    }
}

/// Slope and slope-related (aspect, hillshade) processing algorithms.
///
/// The literature suggests `ZevenbergenThorne` to be more suited to smooth landscapes,
/// whereas `Horn` performs better on rougher terrain.
#[derive(Debug, Clone, Copy, PartialEq, Eq)]
pub enum DemSlopeAlg {
    /// The Horn's formula, which performs better on rougher terrain.
    Horn,
    /// Zevenbergen & Thorne, which works better on smooth terrain.
    ZevenbergenThorne,
}

/// The option value of the slope algorithm `a`.
pub open spec fn dem_slope_alg_option(a: DemSlopeAlg) -> Seq<char> {
    match a {
        DemSlopeAlg::Horn => "Horn"@,
        DemSlopeAlg::ZevenbergenThorne => "ZevenbergenThorne"@,
    }
}

impl DemSlopeAlg {
    /// The algorithm name that `GDALDEMProcessing` takes.
    pub fn to_gdal_option(self) -> (s: &'static str)
        ensures
            s@ == dem_slope_alg_option(self),
    {
        match self {
            DemSlopeAlg::Horn => "Horn",
            DemSlopeAlg::ZevenbergenThorne => "ZevenbergenThorne",
        }
    }
}

/// The arguments that the common DEM settings stand for, in the order
/// `gdaldem` receives them: `-compute_edges`, `-b <band>`, `-of <format>`,
/// then any additional options.
pub open spec fn dem_common_args(
    compute_edges: Option<bool>,
    input_band: Option<usize>,
    output_format: Option<Seq<char>>,
    additional: Seq<Seq<char>>,
) -> Seq<Seq<char>> {
    (if compute_edges == Some(true) {
        seq!["-compute_edges"@]
    } else {
        Seq::empty()
    }) + (match input_band {
        Some(b) => seq!["-b"@, decimal(b as nat)],
        None => Seq::empty(),
    }) + (match output_format {
        Some(f) => seq!["-of"@, f],
        None => Seq::empty(),
    }) + additional
}

/// A run of digits holds no NUL character.
pub proof fn lemma_digits_no_nul(s: Seq<char>)
    requires
        all_digits(s),
    ensures
        no_nul(s),
{
    if s.contains('\0') {
        let i = choose|i: int| 0 <= i < s.len() && #[trigger] s[i] == '\0';
        assert(is_digit(s[i]));
    }
}

/// The settings common to all DEM routines.
#[derive(Debug, Clone)]
pub struct CommonOptions {
    /// The band of the input dataset to read from (1-based).
    pub input_band: Option<usize>,
    /// Whether values are computed at image edges.
    pub compute_edges: Option<bool>,
    /// The identifier of the output format driver.
    pub output_format: Option<String>,
    /// Further arguments, handed over as they are.
    pub additional_options: CslStringList,
}

/// The output format of `o`, as characters.
pub open spec fn format_view(o: Option<String>) -> Option<Seq<char>> {
    match o {
        Some(f) => Some(f@),
        None => None,
    }
}

impl CommonOptions {
    /// No setting made: the routine's defaults apply.
    pub fn new() -> (o: Self)
        ensures
            o.input_band is None,
            o.compute_edges is None,
            o.output_format is None,
            o.additional_options@ == Seq::<Seq<char>>::empty(),
    {
        CommonOptions {
            input_band: None,
            compute_edges: None,
            output_format: None,
            additional_options: CslStringList::new(),
        }
    }

    /// Appends the arguments that the settings stand for to `opts`.
    ///
    /// Fails with `FfiNulError` when the output format holds a NUL character.
    pub fn store_to(&self, opts: &mut CslStringList) -> (r: Result<(), GdalError>)
        ensures
            r is Ok <==> (self.output_format matches Some(f) ==> no_nul(f@)),
            r is Ok ==> final(opts)@ == old(opts)@ + dem_common_args(
                self.compute_edges,
                self.input_band,
                format_view(self.output_format),
                self.additional_options@,
            ),
            r is Err ==> r == Err::<(), GdalError>(GdalError::FfiNulError),
    {
        let ghost start = opts@;
        proof {
            reveal_strlit("-compute_edges");
            reveal_strlit("-b");
            reveal_strlit("-of");
        }
        if self.compute_edges == Some(true) {
            let r = opts.add_string("-compute_edges");
        }
        let ghost after_edges = opts@;
        assert(after_edges == start + (if self.compute_edges == Some(true) {
            seq!["-compute_edges"@]
        } else {
            Seq::<Seq<char>>::empty()
        }));
        if let Some(band) = self.input_band {
            let r = opts.add_string("-b");
            let digits = decimal_string(band as u64);
            proof {
                lemma_decimal_digits(band as nat);
                lemma_digits_no_nul(decimal(band as nat));
            }
            let r = opts.add_string(digits.as_str());
        }
        let ghost after_band = opts@;
        assert(after_band =~= after_edges + (match self.input_band {
            Some(b) => seq!["-b"@, decimal(b as nat)],
            None => Seq::<Seq<char>>::empty(),
        }));
        if let Some(of) = &self.output_format {
            let r = opts.add_string("-of");
            let r = opts.add_string(of.as_str());
            if r.is_err() {
                return Err(GdalError::FfiNulError);
            }
        }
        let ghost after_format = opts@;
        assert(after_format =~= after_band + (match format_view(self.output_format) {
            Some(f) => seq!["-of"@, f],
            None => Seq::<Seq<char>>::empty(),
        }));
        if !self.additional_options.is_empty() {
            opts.extend(&self.additional_options);
        }
        assert(opts@ =~= start + dem_common_args(
            self.compute_edges,
            self.input_band,
            format_view(self.output_format),
            self.additional_options@,
        ));
        Ok(())
    }
}

} // verus!

//! Digital Elevation Model (DEM) processing settings for the routines of the
//! `gdaldem` tool, as rendered into its argument list.

pub mod hillshade;

pub use hillshade::{hillshade_options_list, ShadingMode};

use vstd::prelude::*;

use crate::cpl::{no_nul, CslStringList};
use crate::raster::dem::options::{
    dem_alg_option, dem_common_args, format_view, lemma_digits_no_nul, DemAlg as DemMode,
};
use crate::cpl::ascii_lower;
use crate::text::{decimal, decimal_string, lemma_decimal_digits};

verus! {

/// What a `DemCommonOptions` holds.
pub struct DemCommonView {
    pub input_band: Option<usize>,
    pub compute_edges: Option<bool>,
    pub output_format: Option<Seq<char>>,
    pub additional_options: Option<Seq<Seq<char>>>,
}

/// Options common across all DEM operations.
#[derive(Debug)]
pub struct DemCommonOptions {
    input_band: Option<usize>,
    compute_edges: Option<bool>,
    output_format: Option<String>,
    additional_options: Option<CslStringList>,
}

impl View for DemCommonOptions {
    type V = DemCommonView;

    closed spec fn view(&self) -> DemCommonView {
        DemCommonView {
            input_band: self.input_band,
            compute_edges: self.compute_edges,
            output_format: format_view(self.output_format),
            additional_options: match self.additional_options {
                Some(l) => Some(l@),
                None => None,
            },
        }
    }
}

/// The arguments that the common settings stand for (see `dem_common_args`).
pub open spec fn dem_common_view_args(v: DemCommonView) -> Seq<Seq<char>> {
    dem_common_args(
        v.compute_edges,
        v.input_band,
        v.output_format,
        match v.additional_options {
            Some(l) => l,
            None => Seq::empty(),
        },
    )
}

impl Clone for DemCommonOptions {
    fn clone(&self) -> (c: Self)
        ensures
            c@ == self@,
    {
        DemCommonOptions {
            input_band: self.input_band,
            compute_edges: self.compute_edges,
            output_format: match &self.output_format {
                Some(f) => Some(f.clone()),
                None => None,
            },
            additional_options: match &self.additional_options {
                Some(l) => Some(l.clone_list()),
                None => None,
            },
        }
    }
}

impl Default for DemCommonOptions {
    fn default() -> (o: Self)
        ensures
            o@ == (DemCommonView {
                input_band: None,
                compute_edges: None,
                output_format: None,
                additional_options: None,
            }),
    {
        DemCommonOptions::new()
    }
}

impl DemCommonOptions {
    /// No setting made: the routine's defaults apply.
    pub fn new() -> (o: Self)
        ensures
            o@ == (DemCommonView {
                input_band: None,
                compute_edges: None,
                output_format: None,
                additional_options: None,
            }),
    {
        DemCommonOptions {
            input_band: None,
            compute_edges: None,
            output_format: None,
            additional_options: None,
        }
    }

    /// Render the settings into the argument list of `GDALDEMProcessing`
    /// (see `dem_common_args`).
    pub fn to_options_list(&self) -> (l: CslStringList)
        requires
            self@.output_format matches Some(f) ==> no_nul(f),
        ensures
            l@ == dem_common_view_args(self@),
    {
        let mut opts = CslStringList::new();
        proof {
            reveal_strlit("-compute_edges");
            reveal_strlit("-b");
            reveal_strlit("-of");
        }
        if self.compute_edges == Some(true) {
            let r = opts.add_string("-compute_edges");
        }
        let ghost after_edges = opts@;
        if let Some(band) = self.input_band {
            let r = opts.add_string("-b");
            let digits = decimal_string(band as u64);
            proof {
                lemma_decimal_digits(band as nat);
                lemma_digits_no_nul(decimal(band as nat));
            }
            let r = opts.add_string(digits.as_str());
        }
        let ghost after_band = opts@;
        assert(after_band =~= after_edges + (match self.input_band {
            Some(b) => seq!["-b"@, decimal(b as nat)],
            None => Seq::<Seq<char>>::empty(),
        }));
        if let Some(of) = &self.output_format {
            let r = opts.add_string("-of");
            let r = opts.add_string(of.as_str());
        }
        let ghost after_format = opts@;
        assert(after_format =~= after_band + (match format_view(self.output_format) {
            Some(f) => seq!["-of"@, f],
            None => Seq::<Seq<char>>::empty(),
        }));
        if let Some(extra) = &self.additional_options {
            opts.extend(extra);
        }
        assert(opts@ =~= dem_common_view_args(self@));
        opts
    }
}

/// Trait for DEM routine options wrapping [`DemCommonOptions`].
pub trait DemCommonOptionsOwner: Sized {
    /// The common settings that `self` holds.
    spec fn common(&self) -> DemCommonView;

    /// Fetch a reference to the owned [`DemCommonOptions`].
    fn opts(&self) -> (r: &DemCommonOptions)
        ensures
            r@ == self.common(),
    ;

    /// Fetch a mutable reference to the owned [`DemCommonOptions`].
    fn opts_mut(&mut self) -> (r: &mut DemCommonOptions)
        ensures
            r@ == old(self).common(),
            final(r)@ == final(self).common(),
    ;

    /// Specify which band (1-based) in the input dataset to read from.
    ///
    /// Defaults to the first band.
    fn with_input_band(&mut self, band: usize) -> (r: &mut Self)
        requires
            band >= 1,
        ensures
            r.common() == (DemCommonView { input_band: Some(band), ..old(self).common() }),
            *final(self) == *final(r),
    {
        let o = self.opts_mut();
        o.input_band = Some(band);
        self
    }

    /// Fetch the specified input band to read from.
    fn input_band(&self) -> (b: Option<usize>)
        ensures
            b == self.common().input_band,
    {
        self.opts().input_band
    }

    /// Explicitly specify output raster format: the identifier of a driver
    /// of the GDAL library (`GTiff`, `COG`, ...), as for the `-of` flag of GDAL's tools.
    fn with_output_format(&mut self, format: &str) -> (r: &mut Self)
        ensures
            r.common() == (DemCommonView {
                output_format: Some(format@),
                ..old(self).common()
            }),
            *final(self) == *final(r),
    {
        let o = self.opts_mut();
        o.output_format = Some(format.to_owned());
        self
    }

    /// Fetch the specified output format driver identifier.
    fn output_format(&self) -> (f: Option<String>)
        ensures
            format_view(f) == self.common().output_format,
    {
        match &self.opts().output_format {
            Some(f) => Some(f.clone()),
            None => None,
        }
    }

    /// Compute values at image edges.
    ///
    /// This causes interpolation of values at image edges or if a no-data value is found
    /// in the 3x3 processing window.
    fn with_compute_edges(&mut self, state: bool) -> (r: &mut Self)
        ensures
            r.common() == (DemCommonView {
                compute_edges: Some(state),
                ..old(self).common()
            }),
            *final(self) == *final(r),
    {
        let o = self.opts_mut();
        o.compute_edges = Some(state);
        self
    }

    /// Fetch the specified edge computation value.
    ///
    /// Returns `None` if not specified.
    fn compute_edges(&self) -> (b: Option<bool>)
        ensures
            b == self.common().compute_edges,
    {
        self.opts().compute_edges
    }

    /// Additional generic options to be included, in place of any given before.
    fn with_additional_options(&mut self, extra_options: CslStringList) -> (r: &mut Self)
        ensures
            r.common() == (DemCommonView {
                additional_options: Some(extra_options@),
                ..old(self).common()
            }),
            *final(self) == *final(r),
    {
        let o = self.opts_mut();
        o.additional_options = Some(extra_options);
        self
    }

    /// Fetch any specified additional options.
    fn additional_options(&self) -> (a: Option<&CslStringList>)
        ensures
            match a {
                Some(l) => self.common().additional_options == Some(l@),
                None => self.common().additional_options is None,
            },
    {
        match &self.opts().additional_options {
            Some(l) => Some(l),
            None => None,
        }
    }
}

/// Exposes common DEM routine options when routine doesn't have any additional options.
impl DemCommonOptionsOwner for DemCommonOptions {
    open spec fn common(&self) -> DemCommonView {
        self@
    }

    fn opts(&self) -> (r: &DemCommonOptions) {
        self
    }

    fn opts_mut(&mut self) -> (r: &mut DemCommonOptions) {
        self
    }
}

/// DEM processor mode, to stringify and pass to `GDALDEMProcessing`.
#[derive(Debug, Clone, Copy, PartialEq, Eq)]
pub enum DemAlg {
    Aspect,
    ColorRelief,
    Hillshade,
    Roughness,
    Slope,
    Tpi,
    Tri,
}

/// The processing mode name of `a`: its variant name in lower case, and
/// `color-relief` for the color relief.
pub open spec fn dem_alg_name(a: DemAlg) -> Seq<char> {
    match a {
        DemAlg::Aspect => "aspect"@,
        DemAlg::ColorRelief => "color-relief"@,
        DemAlg::Hillshade => "hillshade"@,
        DemAlg::Roughness => "roughness"@,
        DemAlg::Slope => "slope"@,
        DemAlg::Tpi => "tpi"@,
        DemAlg::Tri => "tri"@,
    }
}

impl DemAlg {
    /// The processing mode name that `GDALDEMProcessing` takes.
    pub fn to_string(&self) -> (s: String)
        ensures
            s@ == dem_alg_name(*self),
    {
        let n = match self {
            DemAlg::Aspect => "aspect",
            DemAlg::ColorRelief => "color-relief",
            DemAlg::Hillshade => "hillshade",
            DemAlg::Roughness => "roughness",
            DemAlg::Slope => "slope",
            DemAlg::Tpi => "tpi",
            DemAlg::Tri => "tri",
        };
        n.to_owned()
    }
}

/// Slope and slope-related (aspect, hillshade) processing algorithms.
///
/// The literature suggests `ZevenbergenThorne` to be more suited to smooth landscapes,
/// whereas `Horn` performs better on rougher terrain.
#[derive(Debug, Clone, Copy, PartialEq, Eq)]
pub enum DemSlopeAlg {
    Horn,
    ZevenbergenThorne,
}

/// The name of the slope algorithm `a`: its variant name.
pub open spec fn dem_slope_alg_name(a: DemSlopeAlg) -> Seq<char> {
    match a {
        DemSlopeAlg::Horn => "Horn"@,
        DemSlopeAlg::ZevenbergenThorne => "ZevenbergenThorne"@,
    }
}

impl DemSlopeAlg {
    /// The algorithm name that `GDALDEMProcessing` takes.
    pub fn to_string(&self) -> (s: String)
        ensures
            s@ == dem_slope_alg_name(*self),
    {
        let n = match self {
            DemSlopeAlg::Horn => "Horn",
            DemSlopeAlg::ZevenbergenThorne => "ZevenbergenThorne",
        };
        n.to_owned()
    }
}

/// The `gdaldem` mode of the same routine in `raster::dem`.
pub open spec fn dem_mode_of(a: DemAlg) -> DemMode {
    match a {
        DemAlg::Aspect => DemMode::Aspect,
        DemAlg::ColorRelief => DemMode::ColorRelief,
        DemAlg::Hillshade => DemMode::Hillshade,
        DemAlg::Roughness => DemMode::Roughness,
        DemAlg::Slope => DemMode::Slope,
        DemAlg::Tpi => DemMode::Tpi,
        DemAlg::Tri => DemMode::Tri,
    }
}

/// `s` in ASCII lower case.
pub open spec fn ascii_lowercase(s: Seq<char>) -> Seq<char> {
    s.map_values(|c: char| ascii_lower(c))
}

/// The mode name of each routine is the `gdaldem` mode of the same routine
/// (`aspect`, `color-relief`, `hillshade`, `roughness`, `slope`, `TPI`,
/// `TRI`) in lower case, and no two routines share a name; so each routine
/// runs as itself.
pub proof fn law_dem_alg_names_are_gdaldem_modes(a: DemAlg, b: DemAlg)
    ensures
        dem_alg_name(a) == ascii_lowercase(dem_alg_option(dem_mode_of(a))),
        a != b ==> dem_alg_name(a) != dem_alg_name(b),
{
    reveal_strlit("aspect");
    reveal_strlit("color-relief");
    reveal_strlit("hillshade");
    reveal_strlit("roughness");
    reveal_strlit("slope");
    reveal_strlit("TPI");
    reveal_strlit("TRI");
    reveal_strlit("tpi");
    reveal_strlit("tri");
    assert(dem_alg_name(a) =~= ascii_lowercase(dem_alg_option(dem_mode_of(a))));
    if a != b {
        let na = dem_alg_name(a);
        let nb = dem_alg_name(b);
        if na.len() == nb.len() {
            assert(na[0] != nb[0] || na[1] != nb[1]);
        }
    }
}

} // verus!

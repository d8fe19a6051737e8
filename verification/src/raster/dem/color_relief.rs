//! Settings of the color-relief DEM routine.

use vstd::prelude::*;

use crate::cpl::{no_nul, CslStringList};
use crate::errors::GdalError;
use crate::raster::dem::options::{dem_common_args, format_view, CommonOptions};

verus! {

/// Color relief color matching mode.
#[derive(Debug, Clone, Copy, PartialEq, Eq)]
pub enum ColorMatchingMode {
    /// Colors between the given elevation values are blended smoothly.
    ///
    /// This is the default.
    Blended,
    /// Use strict matching when searching in the color configuration file.
    ///
    /// If no matching color entry is found, the "0,0,0,0" RGBA quadruplet will be used.
    ExactColorEntry,
    /// Use the RGBA quadruplet corresponding to the closest entry in the color configuration file.
    NearestColorEntry,
}

impl Default for ColorMatchingMode {
    fn default() -> (m: Self)
        ensures
            m == ColorMatchingMode::Blended,
    {
        ColorMatchingMode::Blended
    }
}

/// Configuration options for the color-relief DEM routine.
#[derive(Debug, Clone)]
pub struct ColorReliefOptions {
    common_options: CommonOptions,
    color_config: String,
    alpha: Option<bool>,
    color_matching_mode: ColorMatchingMode,
}

/// What a `ColorReliefOptions` holds.
pub struct ColorReliefView {
    pub input_band: Option<usize>,
    pub compute_edges: Option<bool>,
    pub output_format: Option<Seq<char>>,
    pub additional_options: Seq<Seq<char>>,
    pub color_config: Seq<char>,
    pub alpha: Option<bool>,
    pub color_matching_mode: ColorMatchingMode,
}

impl View for ColorReliefOptions {
    type V = ColorReliefView;

    closed spec fn view(&self) -> ColorReliefView {
        ColorReliefView {
            input_band: self.common_options.input_band,
            compute_edges: self.common_options.compute_edges,
            output_format: format_view(self.common_options.output_format),
            additional_options: self.common_options.additional_options@,
            color_config: self.color_config@,
            alpha: self.alpha,
            color_matching_mode: self.color_matching_mode,
        }
    }
}

/// The arguments that color-relief settings stand for: the common DEM
/// arguments, then `-alpha` when an alpha channel is asked for, then the
/// color matching flag of the non-default modes.
pub open spec fn color_relief_args(v: ColorReliefView) -> Seq<Seq<char>> {
    dem_common_args(v.compute_edges, v.input_band, v.output_format, v.additional_options) + (if v.alpha
        == Some(true) {
        seq!["-alpha"@]
    } else {
        Seq::empty()
    }) + (match v.color_matching_mode {
        ColorMatchingMode::ExactColorEntry => seq!["-exact_color_entry"@],
        ColorMatchingMode::NearestColorEntry => seq!["-nearest_color_entry"@],
        ColorMatchingMode::Blended => Seq::empty(),
    })
}

impl ColorReliefOptions {
    /// Create a DEM-color-relief options set.
    ///
    /// `color_config` is the path of a required text file mapping elevations to
    /// color specifiers (see `gdaldem color-relief`).
    pub fn new(color_config: &str) -> (o: Self)
        ensures
            o@.color_config == color_config@,
            o@.input_band is None,
            o@.compute_edges is None,
            o@.output_format is None,
            o@.additional_options == Seq::<Seq<char>>::empty(),
            o@.alpha is None,
            o@.color_matching_mode == ColorMatchingMode::Blended,
    {
        ColorReliefOptions {
            common_options: CommonOptions::new(),
            color_config: color_config.to_owned(),
            alpha: None,
            color_matching_mode: ColorMatchingMode::default(),
        }
    }

    /// Specify which band (1-based) in the input dataset to read from.
    ///
    /// Defaults to the first band.
    pub fn with_input_band(&mut self, band: usize) -> (r: &mut Self)
        requires
            band >= 1,
        ensures
            r@ == (ColorReliefView { input_band: Some(band), ..old(self)@ }),
            *final(self) == *final(r),
    {
        self.common_options.input_band = Some(band);
        self
    }

    /// Explicitly specify output raster format: the identifier of a driver
    /// of the GDAL library (`GTiff`, `COG`, ...), as for the `-of` flag of GDAL's tools.
    pub fn with_output_format(&mut self, format: &str) -> (r: &mut Self)
        ensures
            r@ == (ColorReliefView { output_format: Some(format@), ..old(self)@ }),
            *final(self) == *final(r),
    {
        self.common_options.output_format = Some(format.to_owned());
        self
    }

    /// Compute values at image edges.
    ///
    /// If true, causes interpolation of values at image edges or if a no-data value is found
    /// in the 3x3 processing window.
    pub fn with_compute_edges(&mut self, state: bool) -> (r: &mut Self)
        ensures
            r@ == (ColorReliefView { compute_edges: Some(state), ..old(self)@ }),
            *final(self) == *final(r),
    {
        self.common_options.compute_edges = Some(state);
        self
    }

    /// Additional generic options to be included, after those given before.
    pub fn with_additional_options(&mut self, extra_options: CslStringList) -> (r: &mut Self)
        ensures
            r@ == (ColorReliefView {
                additional_options: old(self)@.additional_options + extra_options@,
                ..old(self)@
            }),
            *final(self) == *final(r),
    {
        self.common_options.additional_options.extend(&extra_options);
        self
    }

    /// Add an alpha channel to the output raster.
    pub fn with_alpha(&mut self, state: bool) -> (r: &mut Self)
        ensures
            r@ == (ColorReliefView { alpha: Some(state), ..old(self)@ }),
            *final(self) == *final(r),
    {
        self.alpha = Some(state);
        self
    }

    /// Specify the color matching mode.
    pub fn with_color_matching_mode(&mut self, mode: ColorMatchingMode) -> (r: &mut Self)
        ensures
            r@ == (ColorReliefView { color_matching_mode: mode, ..old(self)@ }),
            *final(self) == *final(r),
    {
        self.color_matching_mode = mode;
        self
    }

    /// The path of the color configuration file.
    pub fn color_config(&self) -> (p: &str)
        ensures
            p@ == self@.color_config,
    {
        self.color_config.as_str()
    }

    /// Render the settings into the argument list of `GDALDEMProcessing`
    /// (see `color_relief_args`).
    ///
    /// Fails with `FfiNulError` when the output format holds a NUL character.
    pub fn to_options_list(&self) -> (r: Result<CslStringList, GdalError>)
        ensures
            r is Ok <==> (self@.output_format matches Some(f) ==> no_nul(f)),
            r matches Ok(l) ==> l@ == color_relief_args(self@),
            r is Err ==> r == Err::<CslStringList, GdalError>(GdalError::FfiNulError),
    {
        let mut opts = CslStringList::new();
        let stored = self.common_options.store_to(&mut opts);
        if stored.is_err() {
            return Err(GdalError::FfiNulError);
        }
        proof {
            reveal_strlit("-alpha");
            reveal_strlit("-exact_color_entry");
            reveal_strlit("-nearest_color_entry");
        }
        let ghost common = opts@;
        if self.alpha == Some(true) {
            let r = opts.add_string("-alpha");
        }
        let ghost with_alpha = opts@;
        match self.color_matching_mode {
            ColorMatchingMode::ExactColorEntry => {
                let r = opts.add_string("-exact_color_entry");
            },
            ColorMatchingMode::NearestColorEntry => {
                let r = opts.add_string("-nearest_color_entry");
            },
            _ => {},
        }
        assert(opts@ =~= color_relief_args(self@));
        Ok(opts)
    }
}

} // verus!

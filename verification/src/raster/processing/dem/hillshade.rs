//! Settings of the hill-shade DEM routine.

use vstd::prelude::*;

use crate::cpl::{no_nul, CslStringList};
use vstd::string::StringExecFns;
use crate::raster::processing::dem::{
    dem_common_view_args, dem_slope_alg_name, DemCommonOptions, DemSlopeAlg,
};

verus! {

/// Hillshade shading mode.
#[derive(Debug, Clone, Copy, PartialEq, Eq)]
pub enum ShadingMode {
    /// Combination of slope and oblique shading.
    Combined,
    /// Multi-directional shading: a combination of hillshading illuminated
    /// from 225 deg, 270 deg, 315 deg, and 360 deg azimuth.
    Multidirectional,
    /// Shading which tries to minimize effects on other map features beneath.
    ///
    /// Can't be used with an `altitude` specification.
    Igor,
}

/// The name of the shading mode `m`: its variant name in lower case.
pub open spec fn shading_mode_name(m: ShadingMode) -> Seq<char> {
    match m {
        ShadingMode::Combined => "combined"@,
        ShadingMode::Multidirectional => "multidirectional"@,
        ShadingMode::Igor => "igor"@,
    }
}

impl ShadingMode {
    /// The name of the mode, which `gdaldem` takes as a flag after a `-`.
    pub fn to_string(&self) -> (s: String)
        ensures
            s@ == shading_mode_name(*self),
    {
        let n = match self {
            ShadingMode::Combined => "combined",
            ShadingMode::Multidirectional => "multidirectional",
            ShadingMode::Igor => "igor",
        };
        n.to_owned()
    }
}

/// A flag and its value when the value is given; nothing otherwise.
pub open spec fn flag_with_value(flag: Seq<char>, v: Option<Seq<char>>) -> Seq<Seq<char>> {
    match v {
        Some(x) => seq![flag, x],
        None => Seq::empty(),
    }
}

/// The characters of an optional string.
pub open spec fn opt_str_view(o: Option<&str>) -> Option<Seq<char>> {
    match o {
        Some(s) => Some(s@),
        None => None,
    }
}

/// Whether an optional string is absent or free of NUL characters.
pub open spec fn opt_no_nul(o: Option<&str>) -> bool {
    o matches Some(s) ==> no_nul(s@)
}

/// The arguments of the hill-shade routine: the common DEM arguments, then
/// `-alg`, `-s`, the shading flag, `-z`, `-alt` and `-az`, each when given.
pub open spec fn hillshade_args(
    common: Seq<Seq<char>>,
    algorithm: Option<DemSlopeAlg>,
    scale: Option<Seq<char>>,
    shading: Option<ShadingMode>,
    z_factor: Option<Seq<char>>,
    altitude: Option<Seq<char>>,
    azimuth: Option<Seq<char>>,
) -> Seq<Seq<char>> {
    common + flag_with_value(
        "-alg"@,
        match algorithm {
            Some(a) => Some(dem_slope_alg_name(a)),
            None => None,
        },
    ) + flag_with_value("-s"@, scale) + (match shading {
        Some(m) => seq!["-"@ + shading_mode_name(m)],
        None => Seq::empty(),
    }) + flag_with_value("-z"@, z_factor) + flag_with_value("-alt"@, altitude) + flag_with_value(
        "-az"@,
        azimuth,
    )
}

/// Appends `flag` and `value` when `value` is given.
fn add_flag_with_value(opts: &mut CslStringList, flag: &str, value: Option<&str>)
    requires
        no_nul(flag@),
        opt_no_nul(value),
    ensures
        final(opts)@ == old(opts)@ + flag_with_value(flag@, opt_str_view(value)),
{
    if let Some(v) = value {
        let r = opts.add_string(flag);
        let r = opts.add_string(v);
    }
    assert(opts@ =~= old(opts)@ + flag_with_value(flag@, opt_str_view(value)));
}

/// Render the hill-shade settings into the argument list of `GDALDEMProcessing`
/// (see `hillshade_args`), the numeric settings being given as their text.
pub fn hillshade_options_list(
    common: &DemCommonOptions,
    algorithm: Option<DemSlopeAlg>,
    scale: Option<&str>,
    shading: Option<ShadingMode>,
    z_factor: Option<&str>,
    altitude: Option<&str>,
    azimuth: Option<&str>,
) -> (l: CslStringList)
    requires
        common@.output_format matches Some(f) ==> no_nul(f),
        opt_no_nul(scale),
        opt_no_nul(z_factor),
        opt_no_nul(altitude),
        opt_no_nul(azimuth),
    ensures
        l@ == hillshade_args(
            dem_common_view_args(common@),
            algorithm,
            opt_str_view(scale),
            shading,
            opt_str_view(z_factor),
            opt_str_view(altitude),
            opt_str_view(azimuth),
        ),
{
    proof {
        reveal_strlit("-alg");
        reveal_strlit("-s");
        reveal_strlit("-z");
        reveal_strlit("-alt");
        reveal_strlit("-az");
        reveal_strlit("Horn");
        reveal_strlit("ZevenbergenThorne");
        reveal_strlit("-");
        reveal_strlit("combined");
        reveal_strlit("multidirectional");
        reveal_strlit("igor");
    }
    let mut opts = common.to_options_list();
    let ghost base = opts@;
    if let Some(alg) = algorithm {
        let name = alg.to_string();
        let r = opts.add_string("-alg");
        let r = opts.add_string(name.as_str());
    }
    assert(opts@ =~= base + flag_with_value(
        "-alg"@,
        match algorithm {
            Some(a) => Some(dem_slope_alg_name(a)),
            None => None,
        },
    ));
    add_flag_with_value(&mut opts, "-s", scale);
    let ghost before_shading = opts@;
    if let Some(mode) = shading {
        let mut flag = String::from_str("-");
        let name = mode.to_string();
        flag.append(name.as_str());
        let r = opts.add_string(flag.as_str());
    }
    assert(opts@ =~= before_shading + (match shading {
        Some(m) => seq!["-"@ + shading_mode_name(m)],
        None => Seq::<Seq<char>>::empty(),
    }));
    add_flag_with_value(&mut opts, "-z", z_factor);
    add_flag_with_value(&mut opts, "-alt", altitude);
    add_flag_with_value(&mut opts, "-az", azimuth);
    opts
}

} // verus!

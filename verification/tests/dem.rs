use gdal::cpl::CslStringList;
use gdal::raster::dem::{DemAlg as DemMode, DemSlopeAlg as SlopeAlg};
use gdal::raster::processing::dem::{
    hillshade_options_list, DemAlg, DemCommonOptions, DemCommonOptionsOwner, DemSlopeAlg,
    ShadingMode,
};

#[test]
fn defaults() {
    let opts = DemCommonOptions::new();
    assert_eq!(opts.input_band(), None);
    assert_eq!(opts.compute_edges(), None);
    assert_eq!(opts.output_format(), None);
    assert!(opts.additional_options().is_none());
    assert!(opts.to_options_list().is_empty());
}

#[test]
fn common_options_render_in_order() {
    let mut opts = DemCommonOptions::new();
    opts.with_compute_edges(true)
        .with_output_format("GTiff")
        .with_input_band(3)
        .with_additional_options(CslStringList::parse("CPL_DEBUG=TRUE").unwrap());
    assert_eq!(opts.input_band(), Some(3));
    assert_eq!(opts.compute_edges(), Some(true));
    assert_eq!(opts.output_format(), Some("GTiff".to_string()));
    assert_eq!(
        opts.to_options_list().to_string(),
        "-compute_edges\n-b\n3\n-of\nGTiff\nCPL_DEBUG=TRUE\n"
    );
    opts.with_additional_options(CslStringList::new());
    opts.with_compute_edges(false);
    assert_eq!(opts.to_options_list().to_string(), "-b\n3\n-of\nGTiff\n");
}

#[test]
fn hillshade_arguments() {
    let common = DemCommonOptions::new();
    let l = hillshade_options_list(
        &common,
        Some(DemSlopeAlg::Horn),
        Some("98473"),
        Some(ShadingMode::Combined),
        Some("4"),
        None,
        None,
    );
    assert_eq!(l.to_string(), "-alg\nHorn\n-s\n98473\n-combined\n-z\n4\n");
    let l = hillshade_options_list(&common, None, None, Some(ShadingMode::Igor), None, Some("45"), Some("315"));
    assert_eq!(l.to_string(), "-igor\n-alt\n45\n-az\n315\n");
}

#[test]
fn mode_names() {
    assert_eq!(DemAlg::ColorRelief.to_string(), "color-relief");
    assert_eq!(DemAlg::Tpi.to_string(), "tpi");
    assert_eq!(DemSlopeAlg::ZevenbergenThorne.to_string(), "ZevenbergenThorne");
    assert_eq!(ShadingMode::Multidirectional.to_string(), "multidirectional");
    assert_eq!(DemMode::Tri.to_gdal_option(), "TRI");
    assert_eq!(DemMode::ColorRelief.to_gdal_option(), "color-relief");
    assert_eq!(SlopeAlg::Horn.to_gdal_option(), "Horn");
}

#[test]
fn options() -> gdal::errors::Result<()> {
    let mut common = DemCommonOptions::new();
    common
        .with_input_band(2)
        .with_compute_edges(true)
        .with_output_format("GTiff")
        .with_additional_options("CPL_DEBUG=ON".parse()?);
    let scale = 98473.0f64.to_string();
    let z = 2.0f64.to_string();
    let altitude = 45.0f64.to_string();
    let azimuth = 330.0f64.to_string();
    let list = hillshade_options_list(
        &common,
        Some(DemSlopeAlg::ZevenbergenThorne),
        Some(&scale),
        Some(ShadingMode::Igor),
        Some(&z),
        Some(&altitude),
        Some(&azimuth),
    );

    let expected: CslStringList =
        "-compute_edges -b 2 -of GTiff CPL_DEBUG=ON -alg ZevenbergenThorne -s 98473 -igor -z 2 -alt 45 -az 330"
            .parse()?;
    assert_eq!(expected.to_string(), list.to_string());

    Ok(())
}

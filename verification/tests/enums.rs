use gdal::raster::mdarray::check_data_type_class;
use gdal::errors::GdalError;
use gdal::raster::gdal_enums::GDALDataType;
use gdal::raster::mdarray::ExtendedDataTypeClass;
use gdal::raster::processing::warp::resample::WarpResampleAlg;
use gdal::raster::rasterband::{
    color_ramp_interpretation, CmykEntry, ColorEntry, ColorInterpretation, GdalColorEntry,
    GdalMaskFlags, GrayEntry, HlsEntry, PaletteInterpretation, ResampleAlg, RgbaEntry,
};
use gdal::raster::types::GdalTypeDescriptor;

#[test]
fn data_type_codes() {
    assert_eq!(GDALDataType::GDT_Float64.to_c_int(), 7);
    assert_eq!(GDALDataType::from_c_int(7), GDALDataType::GDT_Float64);
    assert_eq!(GDALDataType::from_c_int(1), GDALDataType::GDT_Byte);
    // The code of GDT_Int16 is not recognised.
    assert_eq!(GDALDataType::from_c_int(3), GDALDataType::GDT_Unknown);
    assert_eq!(GDALDataType::from_c_int(42), GDALDataType::GDT_Unknown);
    assert_eq!(GDALDataType::from_c_int(-1), GDALDataType::GDT_Unknown);
}

#[test]
fn resample_alg_codes() {
    assert_eq!(ResampleAlg::NearestNeighbour.to_gdal(), 0);
    assert_eq!(ResampleAlg::Gauss.to_gdal(), 7);
}

#[test]
fn warp_resample_round_trip() {
    assert_eq!(WarpResampleAlg::default(), WarpResampleAlg::NearestNeighbour);
    assert_eq!(WarpResampleAlg::Max.to_gdal(), 8);
    assert_eq!(WarpResampleAlg::RMS.to_gdal(), 14);
    for code in [0u32, 1, 2, 3, 4, 5, 6, 8, 9, 10, 11, 12, 13, 14] {
        let a = WarpResampleAlg::from_gdal(code).unwrap();
        assert_eq!(a.to_gdal(), code);
    }
    assert_eq!(WarpResampleAlg::from_gdal(13).unwrap(), WarpResampleAlg::Sum);
}

#[test]
fn warp_resample_unsupported_ordinal() {
    match WarpResampleAlg::from_gdal(7) {
        Err(GdalError::BadArgument(m)) => {
            assert_eq!(m, "Ordinal 7 does not map to a supported WarpResampleAlg")
        }
        other => panic!("unexpected {other:?}"),
    }
    assert!(WarpResampleAlg::from_gdal(15).is_err());
}

#[test]
fn mask_flags() {
    let f = GdalMaskFlags::from_bits(0x02 | 0x08);
    assert!(!f.is_all_valid());
    assert!(f.is_per_dataset());
    assert!(!f.is_alpha());
    assert!(f.is_nodata());
    let all = GdalMaskFlags::from_bits(0x01);
    assert!(all.is_all_valid() && !all.is_per_dataset());
    assert!(GdalMaskFlags::from_bits(0x04).is_alpha());
    assert_eq!(GdalMaskFlags::create_mask_flags(true), 0x02);
    assert_eq!(GdalMaskFlags::create_mask_flags(false), 0x00);
}

#[test]
fn color_interpretation_codes() {
    assert_eq!(ColorInterpretation::AlphaBand.c_int(), 6);
    assert_eq!(ColorInterpretation::from_c_int(6), Some(ColorInterpretation::AlphaBand));
    assert_eq!(ColorInterpretation::from_c_int(16), Some(ColorInterpretation::YCbCrSpaceCrBand));
    assert_eq!(ColorInterpretation::from_c_int(17), None);
    for code in 0u32..=16 {
        assert_eq!(ColorInterpretation::from_c_int(code).unwrap().c_int(), code);
    }
}

#[test]
fn palette_interpretation_codes() {
    assert_eq!(PaletteInterpretation::from_c_int(1), PaletteInterpretation::Rgba);
    assert_eq!(PaletteInterpretation::Hls.c_int(), 3);
}

#[test]
fn color_entries() {
    assert_eq!(ColorEntry::grey(5), ColorEntry::Gray(GrayEntry { g: 5 }));
    assert_eq!(ColorEntry::rgba(1, 2, 3, 4), ColorEntry::Rgba(RgbaEntry { r: 1, g: 2, b: 3, a: 4 }));
    assert_eq!(ColorEntry::cmyk(1, 2, 3, 4), ColorEntry::Cmyk(CmykEntry { c: 1, m: 2, y: 3, k: 4 }));
    assert_eq!(ColorEntry::hls(1, 2, 3), ColorEntry::Hls(HlsEntry { h: 1, l: 2, s: 3 }));
    assert_eq!(ColorEntry::hls(1, 2, 3).palette_interpretation(), PaletteInterpretation::Hls);
    assert_eq!(ColorEntry::grey(9).to_gdal(), GdalColorEntry { c1: 9, c2: 0, c3: 0, c4: 0 });
    let g = GdalColorEntry { c1: 10, c2: 20, c3: 30, c4: 40 };
    assert_eq!(
        ColorEntry::from_gdal(g, PaletteInterpretation::Hls),
        ColorEntry::hls(10, 20, 30)
    );
    let e = ColorEntry::rgba(255, 0, 128, 64);
    assert_eq!(ColorEntry::from_gdal(e.to_gdal(), e.palette_interpretation()), e);
}

#[test]
fn color_ramp_needs_one_interpretation() {
    assert_eq!(
        color_ramp_interpretation(&ColorEntry::grey(0), &ColorEntry::grey(99)).unwrap(),
        PaletteInterpretation::Gray
    );
    match color_ramp_interpretation(&ColorEntry::grey(0), &ColorEntry::rgba(0, 0, 0, 0)) {
        Err(GdalError::BadArgument(m)) => assert_eq!(
            m,
            "start_color and end_color must have the same palette_interpretation"
        ),
        other => panic!("unexpected {other:?}"),
    }
}

#[test]
fn type_descriptors() {
    let types = GdalTypeDescriptor::available_types();
    let codes: Vec<u32> = types.iter().map(|t| t.gdal_type()).collect();
    assert_eq!(codes, vec![1, 2, 3, 4, 5, 12, 13, 6, 7]);
    for t in &types {
        let t2 = GdalTypeDescriptor::try_from(t.gdal_type()).unwrap();
        assert_eq!(*t, t2);
    }
    match GdalTypeDescriptor::try_from(0) {
        Err(GdalError::BadArgument(m)) => assert_eq!(m, "unknown GDALDataType 0"),
        other => panic!("unexpected {other:?}"),
    }
    assert!(GdalTypeDescriptor::try_from(8).is_err());
}

#[test]
fn extended_data_type_classes() {
    let s = ExtendedDataTypeClass::from_gdal(1);
    assert!(s.is_string() && !s.is_numeric() && !s.is_compound());
    assert_eq!(ExtendedDataTypeClass::from_gdal(0), ExtendedDataTypeClass::Numeric);
    assert_eq!(ExtendedDataTypeClass::Compound.to_gdal(), 2);
    assert_eq!(ExtendedDataTypeClass::Compound.to_string(), "Compound");
    assert_eq!(ExtendedDataTypeClass::Numeric.to_string(), "Numeric");
}

#[test]
fn data_type_class_checks() {
    assert!(check_data_type_class(
        ExtendedDataTypeClass::Numeric,
        ExtendedDataTypeClass::Numeric,
        "GDALMDArrayRead"
    )
    .is_ok());
    match check_data_type_class(
        ExtendedDataTypeClass::String,
        ExtendedDataTypeClass::Numeric,
        "GDALMDArrayRead",
    ) {
        Err(GdalError::UnsupportedMdDataType { data_type, method_name }) => {
            assert_eq!(data_type, ExtendedDataTypeClass::String);
            assert_eq!(method_name, "GDALMDArrayRead");
        }
        other => panic!("unexpected {other:?}"),
    }
}

use gdal::cpl::CslStringList;
use gdal::raster::rasterize::{
    band_numbers, burn_values_per_band, check_rasterize_args, BurnSource, MergeAlgorithm,
    OptimizeMode, RasterizeOptions,
};

fn fetch(c_options: &CslStringList, key: &str) -> Option<String> {
    c_options.fetch_name_value(key)
}

#[test]
fn test_rasterizeoptions_as_ptr() {
    let c_options = RasterizeOptions::default().to_options_list();
    assert_eq!(fetch(&c_options, "ALL_TOUCHED"), Some("FALSE".to_string()));
    assert_eq!(fetch(&c_options, "BURN_VALUE_FROM"), None);
    assert_eq!(fetch(&c_options, "MERGE_ALG"), Some("REPLACE".to_string()));
    assert_eq!(fetch(&c_options, "CHUNKYSIZE"), Some("0".to_string()));
    assert_eq!(fetch(&c_options, "OPTIM"), Some("AUTO".to_string()));
}

#[test]
fn rasterize_options_all_set() {
    let opts = RasterizeOptions {
        all_touched: true,
        source: BurnSource::Z,
        merge_algorithm: MergeAlgorithm::Add,
        chunk_y_size: 128,
        optimize: OptimizeMode::Vector,
    };
    let l = opts.to_options_list();
    assert_eq!(
        l.to_string(),
        "ALL_TOUCHED=TRUE\nMERGE_ALG=ADD\nCHUNKYSIZE=128\nOPTIM=VECTOR\nBURN_VALUE_FROM=Z\n"
    );
    assert_eq!(fetch(&l, "burn_value_from"), Some("Z".to_string()));
    let raster = RasterizeOptions { optimize: OptimizeMode::Raster, ..opts };
    assert_eq!(fetch(&raster.to_options_list(), "OPTIM"), Some("RASTER".to_string()));
}

#[test]
fn rasterize_argument_checks() {
    assert!(check_rasterize_args(&[1, 2], 3, 3, 2));
    assert!(!check_rasterize_args(&[], 1, 1, 2));
    assert!(!check_rasterize_args(&[1], 2, 1, 2));
    assert!(!check_rasterize_args(&[0], 1, 1, 2));
    assert!(!check_rasterize_args(&[3], 1, 1, 2));
}

#[test]
fn band_numbers_as_c_ints() {
    assert_eq!(band_numbers(&[1, 3, 2]), vec![1i32, 3, 2]);
}

#[test]
fn burn_values_repeat_per_band() {
    assert_eq!(burn_values_per_band(&[1.5f64, 2.5], 3), vec![1.5, 1.5, 1.5, 2.5, 2.5, 2.5]);
    assert_eq!(burn_values_per_band::<f64>(&[], 2), Vec::<f64>::new());
}

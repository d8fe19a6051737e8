use gdal::cpl::CslStringList;
use gdal::errors::{GdalError, Result};
use gdal::raster::dem::{ColorMatchingMode, ColorReliefOptions};

#[test]
fn test_options() -> Result<()> {
    let mut proc = ColorReliefOptions::new("/dev/null");
    proc.with_input_band(2)
        .with_compute_edges(true)
        .with_alpha(true)
        .with_color_matching_mode(ColorMatchingMode::NearestColorEntry)
        .with_output_format("GTiff")
        .with_additional_options("CPL_DEBUG=ON".parse()?);

    let expected: CslStringList =
        "-compute_edges -b 2 -of GTiff CPL_DEBUG=ON -alpha -nearest_color_entry".parse()?;
    assert_eq!(expected.to_string(), proc.to_options_list()?.to_string());

    Ok(())
}

#[test]
fn color_relief_defaults_render_nothing() {
    let opts = ColorReliefOptions::new("fixtures/color-relief.clr");
    assert_eq!(opts.color_config(), "fixtures/color-relief.clr");
    assert!(opts.to_options_list().unwrap().is_empty());
}

#[test]
fn color_relief_exact_mode_and_nul_format() {
    let mut opts = ColorReliefOptions::new("x.clr");
    opts.with_color_matching_mode(ColorMatchingMode::ExactColorEntry);
    assert_eq!(opts.to_options_list().unwrap().to_string(), "-exact_color_entry\n");
    opts.with_output_format("G\0Tiff");
    assert!(matches!(opts.to_options_list(), Err(GdalError::FfiNulError)));
}

#[test]
fn parse_splits_on_spaces_and_honours_quotes() {
    let l = CslStringList::parse("  a  \"b c\" \"x\\\"y\" d").unwrap();
    let entries: Vec<String> = l.entries().clone();
    assert_eq!(entries, vec!["a", "b c", "x\"y", "d"]);
    assert_eq!(l.len(), 4);
    assert!(CslStringList::parse("").unwrap().is_empty());
    assert!(matches!(CslStringList::parse("a\0b"), Err(GdalError::FfiNulError)));
}

#[test]
fn to_string_ends_every_entry_with_a_newline() {
    let mut l = CslStringList::new();
    assert_eq!(l.to_string(), "");
    l.add_string("one").unwrap();
    l.add_string("two").unwrap();
    assert_eq!(l.to_string(), "one\ntwo\n");
}

#[test]
fn add_string_refuses_nul() {
    let mut l = CslStringList::new();
    assert!(matches!(l.add_string("a\0"), Err(GdalError::FfiNulError)));
    assert!(l.is_empty());
}

#[test]
fn extend_appends_in_order() {
    let mut a = CslStringList::parse("x y").unwrap();
    let b = CslStringList::parse("z").unwrap();
    a.extend(&b);
    assert_eq!(a.to_string(), "x\ny\nz\n");
}

#[test]
fn set_then_fetch_reads_back() {
    let mut l = CslStringList::new();
    l.set_name_value("KEY", "one").unwrap();
    l.set_name_value("OTHER", "two").unwrap();
    assert_eq!(l.fetch_name_value("KEY"), Some("one".to_string()));
    l.set_name_value("key", "three").unwrap();
    assert_eq!(l.fetch_name_value("KEY"), Some("three".to_string()));
    assert_eq!(l.fetch_name_value("OTHER"), Some("two".to_string()));
    assert_eq!(l.to_string(), "key=three\nOTHER=two\n");
    assert_eq!(l.fetch_name_value("MISSING"), None);
}

#[test]
fn set_keeps_the_separator_of_the_entry() {
    let mut l = CslStringList::parse("A:1 B=2").unwrap();
    l.set_name_value("A", "9").unwrap();
    assert_eq!(l.to_string(), "A:9\nB=2\n");
    assert_eq!(l.fetch_name_value("a"), Some("9".to_string()));
}

#[test]
fn set_name_value_errors() {
    let mut l = CslStringList::new();
    match l.set_name_value("BAD NAME", "v") {
        Err(GdalError::BadArgument(m)) => assert_eq!(m, "Invalid characters in name: 'BAD NAME'"),
        other => panic!("unexpected {other:?}"),
    }
    match l.set_name_value("NAME", "a\nb") {
        Err(GdalError::BadArgument(m)) => assert_eq!(m, "Invalid characters in value: 'a\nb'"),
        other => panic!("unexpected {other:?}"),
    }
    assert!(matches!(l.set_name_value("NAME", "a\0b"), Err(GdalError::FfiNulError)));
    assert!(l.is_empty());
}

#[test]
fn clone_list_is_equal() {
    let l = CslStringList::parse("p q").unwrap();
    let c = l.clone_list();
    assert_eq!(c.to_string(), l.to_string());
}

#[test]
fn parse_gives_back_space_separated_words() {
    let words = ["-of", "GTiff", "CPL_DEBUG=ON", "a\\b"];
    let l: CslStringList = words.join(" ").parse().unwrap();
    assert_eq!(l.entries().clone(), words.to_vec());
}

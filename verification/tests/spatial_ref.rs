use gdal::spatial_ref::coord_lengths_match;
use gdal::errors::GdalError;
use gdal::spatial_ref::{auth_code_from_str, authority_string, invalid_range_error, str_is_blank};

#[test]
fn authority_joins_name_and_code() {
    assert_eq!(authority_string("EPSG", "4326"), "EPSG:4326");
}

#[test]
fn auth_code_reads_integers() {
    assert_eq!(auth_code_from_str("4326").unwrap(), 4326);
    match auth_code_from_str("IGNF:LAMB93") {
        Err(GdalError::OgrError { err, method_name }) => {
            assert_eq!(err, 7);
            assert_eq!(method_name, "OSRGetAuthorityCode");
        }
        other => panic!("unexpected {other:?}"),
    }
}

#[test]
fn blank_messages() {
    assert!(str_is_blank(""));
    assert!(str_is_blank(" \t\n\u{3000}"));
    assert!(!str_is_blank(" x "));
}

#[test]
fn transformation_errors() {
    let cpl = |m: &str| GdalError::CplError { class: 3, number: 1, msg: m.to_string() };
    match invalid_range_error("EPSG:4326".into(), "EPSG:3035".into(), cpl("  "), true) {
        GdalError::InvalidCoordinateRange { from, to, msg } => {
            assert_eq!(from, "EPSG:4326");
            assert_eq!(to, "EPSG:3035");
            assert_eq!(msg, None);
        }
        other => panic!("unexpected {other:?}"),
    }
    match invalid_range_error("a".into(), "b".into(), cpl("  "), false) {
        GdalError::InvalidCoordinateRange { msg, .. } => assert_eq!(msg, Some("  ".to_string())),
        other => panic!("unexpected {other:?}"),
    }
    match invalid_range_error("a".into(), "b".into(), cpl(""), false) {
        GdalError::InvalidCoordinateRange { msg, .. } => assert_eq!(msg, None),
        other => panic!("unexpected {other:?}"),
    }
    match invalid_range_error("a".into(), "b".into(), cpl("out of range"), true) {
        GdalError::InvalidCoordinateRange { msg, .. } => {
            assert_eq!(msg, Some("out of range".to_string()))
        }
        other => panic!("unexpected {other:?}"),
    }
    assert!(matches!(
        invalid_range_error("a".into(), "b".into(), GdalError::FfiNulError, true),
        GdalError::FfiNulError
    ));
}

#[test]
fn coordinate_slice_lengths() {
    assert!(coord_lengths_match(3, 3, 0));
    assert!(coord_lengths_match(3, 3, 3));
    assert!(!coord_lengths_match(3, 2, 0));
    assert!(!coord_lengths_match(3, 3, 2));
}

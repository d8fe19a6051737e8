use gdal::raster::{creation_options_list, RasterCreationOption};
use gdal::test_utils::{fixture, join_path, InMemoryFixture};
use gdal::errors::GdalError;

#[test]
fn fixture_paths() {
    assert_eq!(fixture("/crate", "tinymarble.tif"), "/crate/fixtures/tinymarble.tif");
    assert_eq!(fixture("/crate/", "a.tif"), "/crate/fixtures/a.tif");
    assert_eq!(fixture("/crate", "/abs/b.tif"), "/abs/b.tif");
}

#[test]
fn join_like_pathbuf_push() {
    assert_eq!(join_path("", "a"), "a");
    assert_eq!(join_path("x", ""), "x/");
    assert_eq!(join_path("x/", "y"), "x/y");
}

#[test]
fn in_memory_fixture_path() {
    let f = InMemoryFixture::new("dem-hills-relief.tiff");
    assert_eq!(f.path(), "/vsimem/dem-hills-relief.tiff");
    assert_eq!(InMemoryFixture::new("/etc/passwd").path(), "/vsimem/etc/passwd");
    assert_eq!(InMemoryFixture::new("//a/b").path(), "/vsimem/a/b");
    assert_eq!(InMemoryFixture::new("").path(), "/vsimem/");
}

#[test]
fn creation_options() {
    let options = [
        RasterCreationOption { key: "TILED", value: "YES" },
        RasterCreationOption { key: "BLOCKXSIZE", value: "128" },
        RasterCreationOption { key: "BLOCKYSIZE", value: "64" },
        RasterCreationOption { key: "COMPRESS", value: "LZW" },
        RasterCreationOption { key: "INTERLEAVE", value: "BAND" },
        RasterCreationOption { key: "compress", value: "DEFLATE" },
    ];
    let l = creation_options_list(&options).unwrap();
    assert_eq!(
        l.to_string(),
        "TILED=YES\nBLOCKXSIZE=128\nBLOCKYSIZE=64\ncompress=DEFLATE\nINTERLEAVE=BAND\n"
    );
    assert_eq!(l.fetch_name_value("COMPRESS"), Some("DEFLATE".to_string()));
    let bad = [RasterCreationOption { key: "OK", value: "1" }, RasterCreationOption { key: "NO GOOD", value: "2" }];
    match creation_options_list(&bad) {
        Err(GdalError::BadArgument(m)) => assert_eq!(m, "Invalid characters in name: 'NO GOOD'"),
        other => panic!("unexpected {other:?}"),
    }
}

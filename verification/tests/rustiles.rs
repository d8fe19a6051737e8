use gdal::rustiles::{route, split_str, Route};

#[test]
fn test_nothing() {
    assert_eq!(1, 1);
}

#[test]
fn route_index() {
    assert_eq!(route("/"), Route::Index);
}

#[test]
fn route_tile() {
    assert_eq!(route("/tile/4/8/5"), Route::Tile { z: 4, x: 8, y: 5 });
    assert_eq!(route("/tile/-1/+2/3"), Route::Tile { z: -1, x: 2, y: 3 });
}

#[test]
fn route_not_found() {
    assert_eq!(route(""), Route::NotFound);
    assert_eq!(route("/tile/1/2"), Route::NotFound);
    assert_eq!(route("/tile/1/2/3/4"), Route::NotFound);
    assert_eq!(route("/tiles/1/2/3"), Route::NotFound);
    assert_eq!(route("/tile/a/2/3"), Route::NotFound);
    assert_eq!(route("tile/1/2/3/"), Route::NotFound);
    assert_eq!(route("/tile/1/2/99999999999999999999"), Route::NotFound);
}

#[test]
fn split_keeps_empty_pieces() {
    assert_eq!(split_str("/a//b", '/'), vec!["", "a", "", "b"]);
    assert_eq!(split_str("", '/'), vec![""]);
}

//! The parts of spatial reference handling that read and write text: the
//! authority of a reference system and the errors of failed transformations.

use vstd::prelude::*;
use crate::errors::{GdalError, Result};
use crate::text::{parse_i32, spec_parse_i32};

verus! {

/// OGR's error code `OGRERR_UNSUPPORTED_SRS`.
pub const OGRERR_UNSUPPORTED_SRS: u32 = 7;

/// The authority of a reference system written as `name:code` (e.g. `EPSG:4326`).
pub fn authority_string(name: &str, code: &str) -> (s: String)
    ensures
        s@ == name@ + ":"@ + code@,
{
    let mut s = name.to_owned();
    s.append(":");
    s.append(code);
    s
}

/// The authority code of a reference system, read from the text that GDAL's
/// `OSRGetAuthorityCode` gives, as `i32::from_str` reads it.
///
/// Fails with `OgrError { err: OGRERR_UNSUPPORTED_SRS, .. }` when the text
/// is not a number that an `i32` holds.
pub fn auth_code_from_str(code: &str) -> (r: Result<i32>)
    ensures
        r is Ok <==> spec_parse_i32(code@) is Some,
        r matches Ok(n) ==> spec_parse_i32(code@) == Some(n),
        r matches Err(e) ==> e matches GdalError::OgrError { err, method_name } && err
            == OGRERR_UNSUPPORTED_SRS && method_name@ == "OSRGetAuthorityCode"@,
{
    match parse_i32(code) {
        Some(n) => Ok(n),
        None => Err(
            GdalError::OgrError { err: OGRERR_UNSUPPORTED_SRS, method_name: "OSRGetAuthorityCode" },
        ),
    }
}

/// Whether slices of `nx`, `ny` and `nz` coordinates can be transformed
/// together: as many `y` as `x`, and either no `z` or as many as `x`.
pub fn coord_lengths_match(nx: usize, ny: usize, nz: usize) -> (b: bool)
    ensures
        b == (nx == ny && (nz == 0 || nz == nx)),
{
    nx == ny && (nz == 0 || nz == nx)
}

/// Whether `c` has Unicode's `White_Space` property, as `char::is_whitespace` tests.
pub open spec fn is_white_space(c: char) -> bool {
    ('\u{9}' <= c && c <= '\u{d}') || c == ' ' || c == '\u{85}' || c == '\u{a0}' || c
        == '\u{1680}' || ('\u{2000}' <= c && c <= '\u{200a}') || c == '\u{2028}' || c
        == '\u{2029}' || c == '\u{202f}' || c == '\u{205f}' || c == '\u{3000}'
}

/// Whether `s` is empty once its white space is trimmed away.
pub open spec fn is_blank(s: Seq<char>) -> bool {
    forall|i: int| 0 <= i < s.len() ==> is_white_space(#[trigger] s[i])
}

fn char_is_white_space(c: char) -> (b: bool)
    ensures
        b == is_white_space(c),
{
    ('\u{9}' <= c && c <= '\u{d}') || c == ' ' || c == '\u{85}' || c == '\u{a0}' || c
        == '\u{1680}' || ('\u{2000}' <= c && c <= '\u{200a}') || c == '\u{2028}' || c
        == '\u{2029}' || c == '\u{202f}' || c == '\u{205f}' || c == '\u{3000}'
}

/// Whether `s.trim()` is empty.
pub fn str_is_blank(s: &str) -> (b: bool)
    ensures
        b == is_blank(s@),
{
    let n = s.unicode_len();
    let mut i: usize = 0;
    while i < n
        invariant
            n == s@.len(),
            i <= n,
            forall|k: int| 0 <= k < i ==> is_white_space(#[trigger] s@[k]),
        decreases n - i,
    {
        if !char_is_white_space(s.get_char(i)) {
            return false;
        }
        i = i + 1;
    }
    true
}

/// The message that a failed transformation carries: none when GDAL's
/// message is blank (`blank_if_trimmed`) or empty (otherwise).
pub open spec fn range_message(msg: Seq<char>, blank_if_trimmed: bool) -> Option<Seq<char>> {
    if (blank_if_trimmed && is_blank(msg)) || (!blank_if_trimmed && msg.len() == 0) {
        None
    } else {
        Some(msg)
    }
}

/// The error of a coordinate transformation from `from` to `to` that GDAL
/// refused with the error `err`: a GDAL error report becomes
/// `InvalidCoordinateRange` with its message (see `range_message`); any
/// other error is returned as it is. `transform_coords` trims the message
/// (`blank_if_trimmed`), `transform_bounds` does not.
pub fn invalid_range_error(from: String, to: String, err: GdalError, blank_if_trimmed: bool) -> (e:
    GdalError)
    ensures
        err matches GdalError::CplError { msg, .. } ==> e matches GdalError::InvalidCoordinateRange {
            from: f,
            to: t,
            msg: m,
        } && f@ == from@ && t@ == to@ && match m {
            Some(mm) => range_message(msg@, blank_if_trimmed) == Some(mm@),
            None => range_message(msg@, blank_if_trimmed) is None,
        },
        !(err matches GdalError::CplError { .. }) ==> e == err,
{
    match err {
        GdalError::CplError { msg, .. } => {
            let blank = if blank_if_trimmed {
                str_is_blank(msg.as_str())
            } else {
                msg.as_str().unicode_len() == 0
            };
            let m = if blank {
                None
            } else {
                Some(msg)
            };
            GdalError::InvalidCoordinateRange { from, to, msg: m }
        },
        other => other,
    }
}

} // verus!

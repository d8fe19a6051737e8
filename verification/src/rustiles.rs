//! Request routing of the tile server: which page a request path asks for.

use vstd::prelude::*;
use crate::text::{
    decimal, digits_value, lemma_decimal_digits, parse_i64, spec_parse_i64, string_push,
};

verus! {

/// The pieces of `s` between the occurrences of `sep`, as `str::split`
/// gives them: one more piece than there are separators, empty pieces kept.
pub open spec fn split_on(s: Seq<char>, sep: char) -> Seq<Seq<char>>
    decreases s.len(),
{
    if s.len() == 0 {
        seq![Seq::<char>::empty()]
    } else {
        let p = split_on(s.drop_last(), sep);
        if s.last() == sep {
            p.push(Seq::empty())
        } else {
            p.update(p.len() - 1, p.last().push(s.last()))
        }
    }
}

/// A split never gives an empty list of pieces.
proof fn lemma_split_nonempty(s: Seq<char>, sep: char)
    ensures
        split_on(s, sep).len() >= 1,
    decreases s.len(),
{
    if s.len() > 0 {
        lemma_split_nonempty(s.drop_last(), sep);
    }
}

/// Splits `s` at each `sep` (see `split_on`).
pub fn split_str(s: &str, sep: char) -> (r: Vec<String>)
    ensures
        r@.len() == split_on(s@, sep).len(),
        forall|i: int| 0 <= i < r@.len() ==> (#[trigger] r@[i])@ == split_on(s@, sep)[i],
{
    let n = s.unicode_len();
    let mut done: Vec<String> = Vec::new();
    let mut cur = String::new();
    let mut i: usize = 0;
    assert(s@.take(0) =~= Seq::<char>::empty());
    while i < n
        invariant
            n == s@.len(),
            i <= n,
            done@.len() + 1 == split_on(s@.take(i as int), sep).len(),
            forall|k: int| 0 <= k < done@.len() ==> (#[trigger] done@[k])@ == split_on(
                s@.take(i as int),
                sep,
            )[k],
            cur@ == split_on(s@.take(i as int), sep).last(),
        decreases n - i,
    {
        let c = s.get_char(i);
        let ghost t = s@.take(i + 1);
        proof {
            assert(t.drop_last() =~= s@.take(i as int));
            assert(t.last() == c);
            lemma_split_nonempty(s@.take(i as int), sep);
        }
        if c == sep {
            done.push(cur);
            cur = String::new();
        } else {
            string_push(&mut cur, c);
        }
        i = i + 1;
    }
    assert(s@.take(n as int) =~= s@);
    done.push(cur);
    done
}

/// What a request path asks the tile server for.
#[derive(Debug, Clone, Copy, PartialEq, Eq, Structural)]
pub enum Route {
    /// The map page, at `/`.
    Index,
    /// The tile of zoom level `z` at column `x` and row `y`, at `/tile/z/x/y`.
    Tile { z: i64, x: i64, y: i64 },
    /// Anything else.
    NotFound,
}

/// The route of the request path `url`: `/` is the index; a path of five
/// `/`-separated pieces, the first empty, the second `tile` and the last
/// three integers (as `i64::from_str` reads them), is the tile `z/x/y`;
/// anything else is not found.
pub open spec fn spec_route(url: Seq<char>) -> Route {
    let bits = split_on(url, '/');
    if url == "/"@ {
        Route::Index
    } else if bits.len() == 5 && bits[0].len() == 0 && bits[1] == "tile"@ && spec_parse_i64(bits[2])
        is Some && spec_parse_i64(bits[3]) is Some && spec_parse_i64(bits[4]) is Some {
        Route::Tile {
            z: spec_parse_i64(bits[2])->0,
            x: spec_parse_i64(bits[3])->0,
            y: spec_parse_i64(bits[4])->0,
        }
    } else {
        Route::NotFound
    }
}

/// Routes the request path `url` (see `spec_route`).
pub fn route(url: &str) -> (r: Route)
    ensures
        r == spec_route(url@),
{
    proof {
        reveal_strlit("/");
        reveal_strlit("tile");
    }
    if url.unicode_len() == 1 && url.get_char(0) == '/' {
        assert(url@ =~= "/"@);
        return Route::Index;
    }
    assert(url@ != "/"@);
    let bits = split_str(url, '/');
    if bits.len() != 5 {
        return Route::NotFound;
    }
    let b1 = bits[1].as_str();
    if bits[0].as_str().unicode_len() != 0 || !(b1.unicode_len() == 4 && b1.get_char(0) == 't'
        && b1.get_char(1) == 'i' && b1.get_char(2) == 'l' && b1.get_char(3) == 'e') {
        proof {
            if b1@.len() == 4 && b1@[0] == 't' && b1@[1] == 'i' && b1@[2] == 'l' && b1@[3] == 'e' {
                assert(b1@ =~= "tile"@);
            }
        }
        return Route::NotFound;
    }
    assert(b1@ =~= "tile"@);
    match (parse_i64(bits[2].as_str()), parse_i64(bits[3].as_str()), parse_i64(bits[4].as_str())) {
        (Some(z), Some(x), Some(y)) => Route::Tile { z, x, y },
        _ => Route::NotFound,
    }
}

/// The text that `format!("{}", n)` gives for the integer `n`.
pub open spec fn signed_decimal(n: int) -> Seq<char> {
    if n < 0 {
        seq!['-'] + decimal((-n) as nat)
    } else {
        decimal(n as nat)
    }
}

/// The tile path that the map page requests for the tile `z/x/y`.
pub open spec fn tile_path(z: int, x: int, y: int) -> Seq<char> {
    "/tile/"@ + signed_decimal(z) + "/"@ + signed_decimal(x) + "/"@ + signed_decimal(y)
}

/// Splitting after one more separator and a piece without separator adds that piece.
proof fn lemma_split_append(a: Seq<char>, sep: char, b: Seq<char>)
    requires
        !b.contains(sep),
    ensures
        split_on(a + seq![sep] + b, sep) == split_on(a, sep).push(b),
    decreases b.len(),
{
    let s = a + seq![sep] + b;
    if b.len() == 0 {
        assert(s =~= a.push(sep));
        assert(s.drop_last() =~= a);
        assert(b =~= Seq::<char>::empty());
    } else {
        let b0 = b.drop_last();
        assert(!b0.contains(sep)) by {
            if b0.contains(sep) {
                let k = choose|k: int| 0 <= k < b0.len() && b0[k] == sep;
                assert(b[k] == sep);
            }
        }
        lemma_split_append(a, sep, b0);
        assert(s.drop_last() =~= a + seq![sep] + b0);
        assert(s.last() == b.last());
        assert(b.last() != sep) by {
            assert(b[b.len() - 1] == b.last());
        }
        assert(b0.push(b.last()) =~= b);
    }
}

/// The text of an integer holds no `/`.
proof fn lemma_signed_decimal_plain(n: int)
    ensures
        !signed_decimal(n).contains('/'),
        spec_parse_int_of_signed(n),
{
    let m: nat = if n < 0 {
        (-n) as nat
    } else {
        n as nat
    };
    lemma_decimal_digits(m);
    let d = decimal(m);
    let s = signed_decimal(n);
    if s.contains('/') {
        let k = choose|k: int| 0 <= k < s.len() && s[k] == '/';
        if n < 0 {
            if k > 0 {
                assert(s[k] == d[k - 1]);
            }
        } else {
            assert(s[k] == d[k]);
        }
    }
    if n < 0 {
        assert(s.skip(1) =~= d);
    }
}

/// Reading back the text of an integer gives the integer.
pub open spec fn spec_parse_int_of_signed(n: int) -> bool {
    crate::text::spec_parse_int(signed_decimal(n)) == Some(n)
}

/// A tile path that the map page requests routes to that tile.
pub proof fn law_route_of_tile_path(z: i64, x: i64, y: i64)
    ensures
        spec_route(tile_path(z as int, x as int, y as int)) == (Route::Tile { z, x, y }),
{
    reveal_strlit("/tile/");
    reveal_strlit("/");
    reveal_strlit("tile");
    let dz = signed_decimal(z as int);
    let dx = signed_decimal(x as int);
    let dy = signed_decimal(y as int);
    lemma_signed_decimal_plain(z as int);
    lemma_signed_decimal_plain(x as int);
    lemma_signed_decimal_plain(y as int);
    let e = Seq::<char>::empty();
    let s1 = e + seq!['/'] + "tile"@;
    let s2 = s1 + seq!['/'] + dz;
    let s3 = s2 + seq!['/'] + dx;
    let s4 = s3 + seq!['/'] + dy;
    assert(s4 =~= tile_path(z as int, x as int, y as int));
    assert(!"tile"@.contains('/')) by {
        if "tile"@.contains('/') {
            let k = choose|k: int| 0 <= k < 4 && "tile"@[k] == '/';
        }
    }
    assert(split_on(e, '/') =~= seq![e]);
    lemma_split_append(e, '/', "tile"@);
    lemma_split_append(s1, '/', dz);
    lemma_split_append(s2, '/', dx);
    lemma_split_append(s3, '/', dy);
    let bits = split_on(s4, '/');
    assert(bits =~= seq![e, "tile"@, dz, dx, dy]);
    assert(s4 != "/"@) by {
        assert(s4.len() > 1);
    }
}

} // verus!

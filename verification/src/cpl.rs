//! String lists in the form GDAL's C API takes them (`char **` lists):
//! command line arguments for GDAL's programs and `NAME=VALUE` options.

use vstd::prelude::*;

use crate::errors::GdalError;
use crate::text::{str_has_char, string_push};
use vstd::string::StringExecFns;

verus! {

/// Whether the character sequence `s` can be handed to C as a string.
pub open spec fn no_nul(s: Seq<char>) -> bool {
    !s.contains('\0')
}

/// An ordered list of strings, each free of NUL characters.
#[derive(Debug)]
pub struct CslStringList {
    entries: Vec<String>,
}

impl Clone for CslStringList {
    fn clone(&self) -> (c: Self)
        ensures
            c@ == self@,
    {
        self.clone_list()
    }
}

impl Default for CslStringList {
    fn default() -> (l: Self)
        ensures
            l@ == Seq::<Seq<char>>::empty(),
    {
        CslStringList::new()
    }
}

impl std::str::FromStr for CslStringList {
    type Err = GdalError;

    /// Splits `s` into entries (see `CslStringList::parse`).
    fn from_str(s: &str) -> (r: Result<CslStringList, GdalError>)
        ensures
            r is Ok <==> no_nul(s@),
            r matches Ok(l) ==> l@ == tokenize(s@),
            r is Err ==> r == Err::<CslStringList, GdalError>(GdalError::FfiNulError),
    {
        CslStringList::parse(s)
    }
}

impl View for CslStringList {
    type V = Seq<Seq<char>>;

    closed spec fn view(&self) -> Seq<Seq<char>> {
        self.entries@.map_values(|e: String| e@)
    }
}

/// Appends `cur` to `acc` unless it is empty.
pub open spec fn emit_token(acc: Seq<Seq<char>>, cur: Seq<char>) -> Seq<Seq<char>> {
    if cur.len() > 0 {
        acc.push(cur)
    } else {
        acc
    }
}

/// Splits `s` at spaces, from position `i` on, as GDAL's `CSLTokenizeString`
/// does: double quotes group text that holds spaces and are removed; inside
/// quotes a backslash escapes a following `"` or `\`; empty tokens are dropped.
/// `cur` is the token read so far, `in_str` whether a quote is open and `acc`
/// the tokens already complete.
pub open spec fn tokenize_from(
    s: Seq<char>,
    i: int,
    cur: Seq<char>,
    in_str: bool,
    acc: Seq<Seq<char>>,
) -> Seq<Seq<char>>
    decreases s.len() - i,
{
    if i < 0 || i >= s.len() {
        emit_token(acc, cur)
    } else if !in_str && s[i] == ' ' {
        tokenize_from(s, i + 1, Seq::empty(), false, emit_token(acc, cur))
    } else if s[i] == '"' {
        tokenize_from(s, i + 1, cur, !in_str, acc)
    } else if in_str && s[i] == '\\' && i + 1 < s.len() && (s[i + 1] == '"' || s[i + 1] == '\\') {
        tokenize_from(s, i + 2, cur.push(s[i + 1]), in_str, acc)
    } else {
        tokenize_from(s, i + 1, cur.push(s[i]), in_str, acc)
    }
}

/// The tokens of `s` (see `tokenize_from`).
pub open spec fn tokenize(s: Seq<char>) -> Seq<Seq<char>> {
    tokenize_from(s, 0, Seq::empty(), false, Seq::empty())
}

/// The list written one entry per line, each line ended by a newline.
pub open spec fn render(l: Seq<Seq<char>>) -> Seq<char>
    decreases l.len(),
{
    if l.len() == 0 {
        Seq::empty()
    } else {
        render(l.drop_last()) + l.last() + seq!['\n']
    }
}

/// The words of `l` written one after the other, separated by single spaces.
pub open spec fn join_words(l: Seq<Seq<char>>) -> Seq<char>
    decreases l.len(),
{
    if l.len() == 0 {
        Seq::empty()
    } else if l.len() == 1 {
        l[0]
    } else {
        l[0] + seq![' '] + join_words(l.skip(1))
    }
}

/// Whether `w` is a word that tokenizing keeps as it is: not empty, with no
/// space and no double quote.
pub open spec fn plain_word(w: Seq<char>) -> bool {
    w.len() > 0 && !w.contains(' ') && !w.contains('"')
}

/// Reading a plain word outside quotes appends it to the current token.
proof fn lemma_tokenize_word(
    s: Seq<char>,
    i: int,
    w: Seq<char>,
    cur: Seq<char>,
    acc: Seq<Seq<char>>,
)
    requires
        0 <= i,
        i + w.len() <= s.len(),
        !w.contains(' '),
        !w.contains('"'),
        forall|j: int| 0 <= j < w.len() ==> s[i + j] == #[trigger] w[j],
    ensures
        tokenize_from(s, i, cur, false, acc) == tokenize_from(s, i + w.len(), cur + w, false, acc),
    decreases w.len(),
{
    if w.len() == 0 {
        assert(cur + w =~= cur);
    } else {
        assert(s[i] == w[0]);
        assert(w[0] != ' ' && w[0] != '"') by {
            if w[0] == ' ' || w[0] == '"' {
                assert(w.contains(w[0]));
            }
        }
        let rest = w.skip(1);
        assert(!rest.contains(' ') && !rest.contains('"')) by {
            if rest.contains(' ') || rest.contains('"') {
                let k = choose|k: int| 0 <= k < rest.len() && (rest[k] == ' ' || rest[k] == '"');
                assert(w[k + 1] == rest[k]);
                assert(w.contains(rest[k]));
            }
        }
        assert forall|j: int| 0 <= j < rest.len() implies s[(i + 1) + j] == #[trigger] rest[j] by {
            assert(w[j + 1] == rest[j]);
        }
        lemma_tokenize_word(s, i + 1, rest, cur.push(w[0]), acc);
        assert(cur.push(w[0]) + rest =~= cur + w);
    }
}

/// Tokenizing plain words separated by single spaces, from position `i`
/// where they begin, appends them to the tokens already read.
proof fn lemma_tokenize_words(s: Seq<char>, i: int, l: Seq<Seq<char>>, acc: Seq<Seq<char>>)
    requires
        0 <= i,
        l.len() > 0,
        forall|k: int| 0 <= k < l.len() ==> plain_word(#[trigger] l[k]),
        s.subrange(i, s.len() as int) == join_words(l),
        i <= s.len(),
    ensures
        tokenize_from(s, i, Seq::empty(), false, acc) == acc + l,
    decreases l.len(),
{
    let w = l[0];
    assert(plain_word(w));
    let t = s.subrange(i, s.len() as int);
    assert(w.len() <= t.len()) by {
        if l.len() > 1 {
            assert(t == w + seq![' '] + join_words(l.skip(1)));
        }
    }
    assert forall|j: int| 0 <= j < w.len() implies s[i + j] == #[trigger] w[j] by {
        if l.len() > 1 {
            assert(t == w + seq![' '] + join_words(l.skip(1)));
        }
        assert(t[j] == s[i + j]);
    }
    lemma_tokenize_word(s, i, w, Seq::empty(), acc);
    assert(Seq::<char>::empty() + w =~= w);
    let e = i + w.len();
    if l.len() == 1 {
        assert(e == s.len());
        assert(acc + l =~= acc.push(w));
    } else {
        let rest = l.skip(1);
        assert(t == w + seq![' '] + join_words(rest));
        assert(s[e] == ' ') by {
            assert(t[w.len() as int] == ' ');
        }
        assert(s.subrange(e + 1, s.len() as int) =~= join_words(rest)) by {
            assert forall|j: int| 0 <= j < join_words(rest).len() implies #[trigger] s.subrange(
                e + 1,
                s.len() as int,
            )[j] == join_words(rest)[j] by {
                assert(t[w.len() + 1 + j] == join_words(rest)[j]);
            }
        }
        assert forall|k: int| 0 <= k < rest.len() implies plain_word(#[trigger] rest[k]) by {
            assert(rest[k] == l[k + 1]);
        }
        lemma_tokenize_words(s, e + 1, rest, acc.push(w));
        assert(acc.push(w) + rest =~= acc + l);
    }
}

/// Parsing plain words separated by single spaces gives the words back.
pub proof fn law_tokenize_joined_words(l: Seq<Seq<char>>)
    requires
        forall|k: int| 0 <= k < l.len() ==> plain_word(#[trigger] l[k]),
    ensures
        tokenize(join_words(l)) == l,
{
    let s = join_words(l);
    if l.len() == 0 {
        assert(tokenize(s) =~= l);
    } else {
        assert(s.subrange(0, s.len() as int) =~= s);
        lemma_tokenize_words(s, 0, l, Seq::empty());
        assert(Seq::<Seq<char>>::empty() + l =~= l);
    }
}

/// Appending a non-NUL character keeps a sequence NUL-free.
pub proof fn lemma_push_no_nul(s: Seq<char>, c: char)
    requires
        no_nul(s),
        c != '\0',
    ensures
        no_nul(s.push(c)),
{
    if s.push(c).contains('\0') {
        let k = choose|k: int| 0 <= k < s.push(c).len() && #[trigger] s.push(c)[k] == '\0';
        assert(s[k] == '\0');
    }
}


/// ASCII lower case of `c`; other characters are kept.
pub open spec fn ascii_lower(c: char) -> char {
    if 'A' <= c && c <= 'Z' {
        ((c as int) + 32) as char
    } else {
        c
    }
}

/// Equality of characters up to ASCII case, as C's `strncasecmp` compares them.
pub open spec fn eq_ci(a: char, b: char) -> bool {
    ascii_lower(a) == ascii_lower(b)
}

/// Whether `e` begins with `k`, up to ASCII case.
pub open spec fn starts_with_ci(e: Seq<char>, k: Seq<char>) -> bool {
    k.len() <= e.len() && forall|i: int| 0 <= i < k.len() ==> eq_ci(#[trigger] e[i], k[i])
}

/// Whether two keys are equal up to ASCII case.
pub open spec fn keys_eq_ci(a: Seq<char>, b: Seq<char>) -> bool {
    a.len() == b.len() && forall|i: int| 0 <= i < a.len() ==> eq_ci(#[trigger] a[i], b[i])
}

/// The separators between a name and its value in a `NAME=VALUE` entry.
pub open spec fn is_sep(c: char) -> bool {
    c == '=' || c == ':'
}

/// The characters that a name may hold: ASCII letters, digits and `_`.
pub open spec fn is_name_char(c: char) -> bool {
    ('a' <= c && c <= 'z') || ('A' <= c && c <= 'Z') || ('0' <= c && c <= '9') || c == '_'
}

/// Whether every character of `k` may stand in a name.
pub open spec fn valid_name(k: Seq<char>) -> bool {
    forall|i: int| 0 <= i < k.len() ==> is_name_char(#[trigger] k[i])
}

/// Whether `v` may stand as a value: no line break.
pub open spec fn valid_value(v: Seq<char>) -> bool {
    !v.contains('\n') && !v.contains('\r')
}

/// The position of the separator reached from `from` over spaces only, if any.
pub open spec fn sep_after_spaces(e: Seq<char>, from: int) -> Option<int>
    decreases e.len() - from,
{
    if from < 0 || from >= e.len() {
        None
    } else if e[from] == ' ' {
        sep_after_spaces(e, from + 1)
    } else if is_sep(e[from]) {
        Some(from)
    } else {
        None
    }
}

/// Where `CSLSetNameValue` finds the separator of an entry for the name `k`:
/// the entry begins with `k` (up to ASCII case), then spaces, then `=` or `:`.
pub open spec fn set_match(e: Seq<char>, k: Seq<char>) -> Option<int> {
    if starts_with_ci(e, k) {
        sep_after_spaces(e, k.len() as int)
    } else {
        None
    }
}

/// Whether `CSLFetchNameValue` takes `e` as the entry for the name `k`:
/// `e` begins with `k` (up to ASCII case) directly followed by `=` or `:`.
pub open spec fn fetch_match(e: Seq<char>, k: Seq<char>) -> bool {
    e.len() > k.len() && starts_with_ci(e, k) && is_sep(e[k.len() as int])
}

/// The first position from `j` on whose entry satisfies `p`.
pub open spec fn find_first(l: Seq<Seq<char>>, p: spec_fn(Seq<char>) -> bool, j: int) -> Option<int>
    decreases l.len() - j,
{
    if j < 0 || j >= l.len() {
        None
    } else if p(l[j]) {
        Some(j)
    } else {
        find_first(l, p, j + 1)
    }
}

/// The entries that `set_name_value` replaces for the name `k`.
pub open spec fn set_pred(k: Seq<char>) -> spec_fn(Seq<char>) -> bool {
    |e: Seq<char>| set_match(e, k) is Some
}

/// The entries that `fetch_name_value` reads for the name `k`.
pub open spec fn fetch_pred(k: Seq<char>) -> spec_fn(Seq<char>) -> bool {
    |e: Seq<char>| fetch_match(e, k)
}

/// The list after setting `k` to `v`: the first entry for `k` is rewritten as
/// `k`, its separator and `v`; without such an entry, `k=v` is appended.
pub open spec fn set_name_value_spec(l: Seq<Seq<char>>, k: Seq<char>, v: Seq<char>) -> Seq<
    Seq<char>,
> {
    match find_first(l, set_pred(k), 0) {
        Some(j) => l.update(j, k + seq![l[j][set_match(l[j], k)->0]] + v),
        None => l.push(k + seq!['='] + v),
    }
}

/// The value of the first entry for `k`: what follows its separator.
pub open spec fn fetch_name_value_spec(l: Seq<Seq<char>>, k: Seq<char>) -> Option<Seq<char>> {
    match find_first(l, fetch_pred(k), 0) {
        Some(j) => Some(l[j].skip(k.len() as int + 1)),
        None => None,
    }
}

/// `find_first` from `s` answers `j` when `j` is the first satisfying position at or after `s`.
proof fn lemma_find_first_at(l: Seq<Seq<char>>, p: spec_fn(Seq<char>) -> bool, s: int, j: int)
    requires
        0 <= s <= j < l.len(),
        p(l[j]),
        forall|i: int| s <= i < j ==> !p(#[trigger] l[i]),
    ensures
        find_first(l, p, s) == Some(j),
    decreases j - s,
{
    if s < j {
        lemma_find_first_at(l, p, s + 1, j);
    }
}

/// `find_first` from `s` answers `None` when no position at or after `s` satisfies `p`.
proof fn lemma_find_first_none(l: Seq<Seq<char>>, p: spec_fn(Seq<char>) -> bool, s: int)
    requires
        0 <= s,
        forall|i: int| s <= i < l.len() ==> !p(#[trigger] l[i]),
    ensures
        find_first(l, p, s) is None,
    decreases l.len() - s,
{
    if s < l.len() {
        lemma_find_first_none(l, p, s + 1);
    }
}

/// What `find_first` answers: no earlier position satisfies `p`, and the answer does.
proof fn lemma_find_first_props(l: Seq<Seq<char>>, p: spec_fn(Seq<char>) -> bool, s: int)
    requires
        0 <= s,
    ensures
        find_first(l, p, s) matches Some(j) ==> s <= j < l.len() && p(l[j]) && forall|i: int|
            s <= i < j ==> !p(#[trigger] l[i]),
        find_first(l, p, s) is None ==> forall|i: int| s <= i < l.len() ==> !p(#[trigger] l[i]),
    decreases l.len() - s,
{
    if s < l.len() {
        lemma_find_first_props(l, p, s + 1);
    }
}

/// At position `i`, both lists hold the same entry, or neither entry satisfies `p`.
pub open spec fn agree_at(l1: Seq<Seq<char>>, l2: Seq<Seq<char>>, p: spec_fn(Seq<char>) -> bool, i: int) -> bool {
    (i < l1.len() && l1[i] == l2[i]) || (!p(l2[i]) && (i >= l1.len() || !p(l1[i])))
}

/// Two lists on which `p` picks the same first entry.
proof fn lemma_find_first_frame(
    l1: Seq<Seq<char>>,
    l2: Seq<Seq<char>>,
    p: spec_fn(Seq<char>) -> bool,
    s: int,
)
    requires
        0 <= s,
        l1.len() <= l2.len(),
        forall|i: int| s <= i < l2.len() ==> #[trigger] agree_at(l1, l2, p, i),
    ensures
        find_first(l1, p, s) == find_first(l2, p, s),
        find_first(l1, p, s) matches Some(j) ==> l1[j] == l2[j],
    decreases l2.len() - s,
{
    if s < l2.len() {
        assert(agree_at(l1, l2, p, s));
        lemma_find_first_frame(l1, l2, p, s + 1);
    }
}

/// ASCII lower case keeps the name characters among themselves and leaves
/// spaces and separators alone.
proof fn lemma_lower_classes(c: char)
    ensures
        is_name_char(c) ==> is_name_char(ascii_lower(c)),
        (c == ' ' || is_sep(c)) ==> ascii_lower(c) == c,
{
}

/// A name character never equals, up to case, a space or a separator.
proof fn lemma_name_char_not_punct(c: char, d: char)
    requires
        is_name_char(c),
        d == ' ' || is_sep(d),
    ensures
        !eq_ci(c, d),
{
    lemma_lower_classes(c);
    lemma_lower_classes(d);
}

/// The first position examined by `sep_after_spaces` holds a space or the separator.
proof fn lemma_sep_after_spaces(e: Seq<char>, from: int)
    requires
        sep_after_spaces(e, from) is Some,
    ensures
        0 <= from < e.len(),
        e[from] == ' ' || is_sep(e[from]),
        from <= sep_after_spaces(e, from)->0 < e.len(),
        is_sep(e[sep_after_spaces(e, from)->0]),
    decreases e.len() - from,
{
    if e[from] == ' ' {
        lemma_sep_after_spaces(e, from + 1);
    }
}

/// An entry that `fetch_name_value` reads for `k` is one that `set_name_value` rewrites.
proof fn lemma_fetch_implies_set(e: Seq<char>, k: Seq<char>)
    requires
        fetch_match(e, k),
    ensures
        set_match(e, k) == Some(k.len() as int),
{
}

/// An entry that `set_name_value` would rewrite for the valid name `k2` is not
/// read by `fetch_name_value` for a valid name `k1` that differs from `k2`.
proof fn lemma_set_match_excludes_fetch(e: Seq<char>, k1: Seq<char>, k2: Seq<char>)
    requires
        valid_name(k1),
        valid_name(k2),
        !keys_eq_ci(k1, k2),
        set_match(e, k2) is Some,
    ensures
        !fetch_match(e, k1),
{
    lemma_sep_after_spaces(e, k2.len() as int);
    if fetch_match(e, k1) {
        if k1.len() < k2.len() {
            let i = k1.len() as int;
            assert(eq_ci(e[i], k2[i]));
            lemma_name_char_not_punct(k2[i], e[i]);
        } else if k1.len() == k2.len() {
            assert forall|i: int| 0 <= i < k1.len() implies eq_ci(#[trigger] k1[i], k2[i]) by {
                assert(eq_ci(e[i], k1[i]));
                assert(eq_ci(e[i], k2[i]));
            }
        } else {
            let i = k2.len() as int;
            assert(eq_ci(e[i], k1[i]));
            lemma_name_char_not_punct(k1[i], e[i]);
        }
    }
}

/// The entry written by `set_name_value` is one that it would rewrite again, and
/// one that `fetch_name_value` reads back.
proof fn lemma_new_entry(k: Seq<char>, sep: char, v: Seq<char>)
    requires
        is_sep(sep),
    ensures
        set_match(k + seq![sep] + v, k) == Some(k.len() as int),
        fetch_match(k + seq![sep] + v, k),
        (k + seq![sep] + v).skip(k.len() as int + 1) == v,
{
    let ne = k + seq![sep] + v;
    assert(ne[k.len() as int] == sep);
    assert forall|i: int| 0 <= i < k.len() implies eq_ci(#[trigger] ne[i], k[i]) by {
        assert(ne[i] == k[i]);
    }
    assert(ne.skip(k.len() as int + 1) =~= v);
}

/// After setting the name `k` to `v`, reading `k` gives `v` back.
pub proof fn law_fetch_after_set(l: Seq<Seq<char>>, k: Seq<char>, v: Seq<char>)
    ensures
        fetch_name_value_spec(set_name_value_spec(l, k, v), k) == Some(v),
{
    let sp = set_pred(k);
    let fp = fetch_pred(k);
    let l2 = set_name_value_spec(l, k, v);
    lemma_find_first_props(l, sp, 0);
    assert forall|i: int| 0 <= i < l.len() && fetch_match(#[trigger] l[i], k) implies sp(l[i]) by {
        lemma_fetch_implies_set(l[i], k);
    }
    match find_first(l, sp, 0) {
        Some(j) => {
            let idx = set_match(l[j], k)->0;
            lemma_sep_after_spaces(l[j], k.len() as int);
            lemma_new_entry(k, l[j][idx], v);
            assert(fp(l2[j]));
            assert forall|i: int| 0 <= i < j implies !fp(#[trigger] l2[i]) by {
                assert(l2[i] == l[i]);
                assert(!sp(l[i]));
            }
            lemma_find_first_at(l2, fp, 0, j);
        },
        None => {
            lemma_new_entry(k, '=', v);
            let j = l.len() as int;
            assert(fp(l2[j]));
            assert forall|i: int| 0 <= i < j implies !fp(#[trigger] l2[i]) by {
                assert(l2[i] == l[i]);
                assert(!sp(l[i]));
            }
            lemma_find_first_at(l2, fp, 0, j);
        },
    }
}

/// Setting one valid name leaves what another valid name reads unchanged.
pub proof fn law_set_keeps_other_names(
    l: Seq<Seq<char>>,
    k1: Seq<char>,
    k2: Seq<char>,
    v: Seq<char>,
)
    requires
        valid_name(k1),
        valid_name(k2),
        !keys_eq_ci(k1, k2),
    ensures
        fetch_name_value_spec(set_name_value_spec(l, k2, v), k1) == fetch_name_value_spec(l, k1),
{
    let sp = set_pred(k2);
    let fp = fetch_pred(k1);
    let l2 = set_name_value_spec(l, k2, v);
    lemma_find_first_props(l, sp, 0);
    match find_first(l, sp, 0) {
        Some(j) => {
            let idx = set_match(l[j], k2)->0;
            lemma_sep_after_spaces(l[j], k2.len() as int);
            lemma_new_entry(k2, l[j][idx], v);
            lemma_set_match_excludes_fetch(l[j], k1, k2);
            lemma_set_match_excludes_fetch(l2[j], k1, k2);
            assert forall|i: int| 0 <= i < l2.len() implies #[trigger] agree_at(l, l2, fp, i) by {
                if i != j {
                    assert(l[i] == l2[i]);
                }
            }
            lemma_find_first_frame(l, l2, fp, 0);
        },
        None => {
            lemma_new_entry(k2, '=', v);
            let j = l.len() as int;
            lemma_set_match_excludes_fetch(l2[j], k1, k2);
            assert forall|i: int| 0 <= i < l2.len() implies #[trigger] agree_at(l, l2, fp, i) by {
                if i != j {
                    assert(l[i] == l2[i]);
                }
            }
            lemma_find_first_frame(l, l2, fp, 0);
        },
    }
}


/// Setting a name that no entry begins with (their first characters differ
/// from the name's, up to ASCII case) appends `name=value`.
pub proof fn lemma_set_fresh_name(l: Seq<Seq<char>>, k: Seq<char>, v: Seq<char>)
    requires
        k.len() > 0,
        forall|i: int| 0 <= i < l.len() ==> (#[trigger] l[i]).len() > 0 && !eq_ci(l[i][0], k[0]),
    ensures
        set_name_value_spec(l, k, v) == l.push(k + seq!['='] + v),
{
    assert forall|i: int| 0 <= i < l.len() implies !set_pred(k)(#[trigger] l[i]) by {
        assert(!eq_ci(l[i][0], k[0]));
    }
    lemma_find_first_none(l, set_pred(k), 0);
}

/// Reading a name whose first character begins no entry (up to ASCII case)
/// finds nothing.
pub proof fn lemma_fetch_absent_name(l: Seq<Seq<char>>, k: Seq<char>)
    requires
        k.len() > 0,
        forall|i: int| 0 <= i < l.len() ==> (#[trigger] l[i]).len() > 0 && !eq_ci(l[i][0], k[0]),
    ensures
        fetch_name_value_spec(l, k) is None,
{
    assert forall|i: int| 0 <= i < l.len() implies !fetch_pred(k)(#[trigger] l[i]) by {
        assert(!eq_ci(l[i][0], k[0]));
    }
    lemma_find_first_none(l, fetch_pred(k), 0);
}

/// Reading the name `k` finds the value `v` of the entry `k=v` at `j` when no
/// earlier entry begins with the first character of `k` (up to ASCII case).
pub proof fn lemma_fetch_entry_at(l: Seq<Seq<char>>, k: Seq<char>, v: Seq<char>, j: int)
    requires
        k.len() > 0,
        0 <= j < l.len(),
        l[j] == k + seq!['='] + v,
        forall|i: int| 0 <= i < j ==> (#[trigger] l[i]).len() > 0 && !eq_ci(l[i][0], k[0]),
    ensures
        fetch_name_value_spec(l, k) == Some(v),
{
    lemma_new_entry(k, '=', v);
    assert forall|i: int| 0 <= i < j implies !fetch_pred(k)(#[trigger] l[i]) by {
        assert(!eq_ci(l[i][0], k[0]));
    }
    lemma_find_first_at(l, fetch_pred(k), 0, j);
}

/// Concatenating NUL-free sequences gives a NUL-free sequence.
pub proof fn lemma_concat_no_nul(a: Seq<char>, b: Seq<char>)
    requires
        no_nul(a),
        no_nul(b),
    ensures
        no_nul(a + b),
{
    if (a + b).contains('\0') {
        let k = choose|k: int| 0 <= k < (a + b).len() && #[trigger] (a + b)[k] == '\0';
        if k < a.len() {
            assert(a[k] == '\0');
        } else {
            assert(b[k - a.len()] == '\0');
        }
    }
}

/// A valid name holds no NUL character.
proof fn lemma_valid_name_no_nul(k: Seq<char>)
    requires
        valid_name(k),
    ensures
        no_nul(k),
{
    if k.contains('\0') {
        let i = choose|i: int| 0 <= i < k.len() && #[trigger] k[i] == '\0';
        assert(is_name_char(k[i]));
    }
}

/// The message of the error for a name that holds other characters than those of `is_name_char`.
pub open spec fn invalid_name_message(name: Seq<char>) -> Seq<char> {
    "Invalid characters in name: '"@ + name + "'"@
}

/// The message of the error for a value that holds a line break.
pub open spec fn invalid_value_message(value: Seq<char>) -> Seq<char> {
    "Invalid characters in value: '"@ + value + "'"@
}

/// Whether `e` is the error that `set_name_value` reports for `name` and `value`.
pub open spec fn is_set_name_value_error(e: GdalError, name: Seq<char>, value: Seq<char>) -> bool {
    if !valid_name(name) {
        e matches GdalError::BadArgument(m) && m@ == invalid_name_message(name)
    } else if !valid_value(value) {
        e matches GdalError::BadArgument(m) && m@ == invalid_value_message(value)
    } else {
        e matches GdalError::FfiNulError
    }
}

/// Whether `set_name_value` accepts `name` and `value`.
pub open spec fn name_value_ok(name: Seq<char>, value: Seq<char>) -> bool {
    valid_name(name) && valid_value(value) && no_nul(value)
}

/// The ASCII lower case of `c`, as a code point.
fn lower_code(c: char) -> (r: u32)
    ensures
        r == ascii_lower(c) as u32,
{
    let u = c as u32;
    if 65 <= u && u <= 90 {
        u + 32
    } else {
        u
    }
}

/// Whether `a` and `b` are equal up to ASCII case.
fn char_eq_ci(a: char, b: char) -> (r: bool)
    ensures
        r == eq_ci(a, b),
{
    let la = lower_code(a);
    let lb = lower_code(b);
    proof {
        if la == lb {
            assert(ascii_lower(a) as u32 == ascii_lower(b) as u32);
        }
    }
    la == lb
}

/// Whether `e` begins with `k`, up to ASCII case.
fn str_starts_with_ci(e: &str, k: &str) -> (r: bool)
    ensures
        r == starts_with_ci(e@, k@),
{
    let n = k.unicode_len();
    let m = e.unicode_len();
    if n > m {
        return false;
    }
    let mut i: usize = 0;
    while i < n
        invariant
            n == k@.len(),
            m == e@.len(),
            n <= m,
            i <= n,
            forall|j: int| 0 <= j < i ==> eq_ci(#[trigger] e@[j], k@[j]),
        decreases n - i,
    {
        if !char_eq_ci(e.get_char(i), k.get_char(i)) {
            return false;
        }
        i = i + 1;
    }
    true
}

/// Where the separator stands after spaces from `from` on (see `sep_after_spaces`).
fn str_sep_after_spaces(e: &str, from: usize) -> (r: Option<usize>)
    ensures
        r matches Some(i) ==> sep_after_spaces(e@, from as int) == Some(i as int),
        r is None ==> sep_after_spaces(e@, from as int) is None,
{
    let n = e.unicode_len();
    let mut i = from;
    while i < n && e.get_char(i) == ' '
        invariant
            n == e@.len(),
            from <= i,
            sep_after_spaces(e@, from as int) == sep_after_spaces(e@, i as int),
        decreases n - i,
    {
        i = i + 1;
    }
    if i < n {
        let c = e.get_char(i);
        if c == '=' || c == ':' {
            return Some(i);
        }
    }
    None
}

/// Every token of a NUL-free string is NUL-free.
proof fn lemma_tokenize_no_nul(
    s: Seq<char>,
    i: int,
    cur: Seq<char>,
    in_str: bool,
    acc: Seq<Seq<char>>,
)
    requires
        no_nul(s),
        no_nul(cur),
        forall|k: int| 0 <= k < acc.len() ==> no_nul(#[trigger] acc[k]),
    ensures
        forall|k: int|
            0 <= k < tokenize_from(s, i, cur, in_str, acc).len() ==> no_nul(
                #[trigger] tokenize_from(s, i, cur, in_str, acc)[k],
            ),
    decreases s.len() - i,
{
    let e = emit_token(acc, cur);
    assert forall|k: int| 0 <= k < e.len() implies no_nul(#[trigger] e[k]) by {
        if k < acc.len() {
            assert(no_nul(acc[k]));
        }
    }
    if 0 <= i < s.len() {
        assert(s[i] != '\0') by {
            if s[i] == '\0' {
                assert(s.contains('\0'));
            }
        }
    }
    if 0 <= i + 1 < s.len() {
        assert(s[i + 1] != '\0') by {
            if s[i + 1] == '\0' {
                assert(s.contains('\0'));
            }
        }
    }
    let t = tokenize_from(s, i, cur, in_str, acc);
    if i < 0 || i >= s.len() {
        assert(t == e);
    } else if !in_str && s[i] == ' ' {
        lemma_tokenize_no_nul(s, i + 1, Seq::empty(), false, e);
        assert(t == tokenize_from(s, i + 1, Seq::empty(), false, e));
    } else if s[i] == '"' {
        lemma_tokenize_no_nul(s, i + 1, cur, !in_str, acc);
        assert(t == tokenize_from(s, i + 1, cur, !in_str, acc));
    } else if in_str && s[i] == '\\' && i + 1 < s.len() && (s[i + 1] == '"' || s[i + 1] == '\\') {
        lemma_push_no_nul(cur, s[i + 1]);
        lemma_tokenize_no_nul(s, i + 2, cur.push(s[i + 1]), in_str, acc);
        assert(t == tokenize_from(s, i + 2, cur.push(s[i + 1]), in_str, acc));
    } else {
        lemma_push_no_nul(cur, s[i]);
        lemma_tokenize_no_nul(s, i + 1, cur.push(s[i]), in_str, acc);
        assert(t == tokenize_from(s, i + 1, cur.push(s[i]), in_str, acc));
    }
}

impl CslStringList {
    #[verifier::type_invariant]
    closed spec fn inv(self) -> bool {
        forall|i: int| 0 <= i < self.entries.len() ==> no_nul(#[trigger] self.entries@[i]@)
    }

    /// Moves the entries out, leaving the list empty.
    fn take_entries(&mut self) -> (v: Vec<String>)
        ensures
            v@.map_values(|e: String| e@) == old(self)@,
            final(self)@ == Seq::<Seq<char>>::empty(),
            forall|i: int| 0 <= i < v.len() ==> no_nul(#[trigger] v@[i]@),
    {
        proof {
            use_type_invariant(&*self);
        }
        let mut v: Vec<String> = Vec::new();
        std::mem::swap(&mut v, &mut self.entries);
        assert(self@ =~= Seq::<Seq<char>>::empty());
        v
    }

    /// An empty list.
    pub fn new() -> (l: Self)
        ensures
            l@ == Seq::<Seq<char>>::empty(),
    {
        let l = CslStringList { entries: Vec::new() };
        assert(l@ =~= Seq::<Seq<char>>::empty());
        l
    }

    /// A copy of the list.
    pub fn clone_list(&self) -> (c: Self)
        ensures
            c@ == self@,
    {
        proof {
            use_type_invariant(self);
        }
        let v = self.entries.clone();
        assert(v@.map_values(|e: String| e@) =~= self@) by {
            assert forall|i: int| 0 <= i < v.len() implies #[trigger] v@[i] == self.entries@[i] by {
                assert(cloned::<String>(self.entries@[i], v@[i]));
            }
        }
        CslStringList { entries: v }
    }

    /// The number of entries.
    pub fn len(&self) -> (n: usize)
        ensures
            n == self@.len(),
    {
        self.entries.len()
    }

    /// Whether the list has no entry.
    pub fn is_empty(&self) -> (b: bool)
        ensures
            b == (self@.len() == 0),
    {
        self.entries.len() == 0
    }

    /// The entries, in order; none holds a NUL character.
    pub fn entries(&self) -> (v: &Vec<String>)
        ensures
            v@.len() == self@.len(),
            forall|i: int| 0 <= i < v@.len() ==> (#[trigger] v@[i])@ == self@[i],
            forall|i: int| 0 <= i < self@.len() ==> no_nul(#[trigger] self@[i]),
    {
        proof {
            use_type_invariant(self);
        }
        &self.entries
    }

    /// Appends `value` as a new entry.
    ///
    /// Fails with `FfiNulError`, leaving the list unchanged, when `value` holds a NUL character.
    pub fn add_string(&mut self, value: &str) -> (r: Result<(), GdalError>)
        ensures
            r is Ok <==> no_nul(value@),
            r is Ok ==> final(self)@ == old(self)@.push(value@),
            r is Err ==> final(self)@ == old(self)@ && r == Err::<(), GdalError>(
                GdalError::FfiNulError,
            ),
    {
        if str_has_char(value, '\0') {
            return Err(GdalError::FfiNulError);
        }
        let s = value.to_owned();
        let mut v = self.take_entries();
        v.push(s);
        assert(v@.map_values(|e: String| e@) =~= old(self)@.push(value@));
        self.entries = v;
        Ok(())
    }

    /// Appends every entry of `other`, in order.
    pub fn extend(&mut self, other: &CslStringList)
        ensures
            final(self)@ == old(self)@ + other@,
    {
        proof {
            use_type_invariant(other);
        }
        let mut v = self.take_entries();
        let n = other.entries.len();
        let mut i: usize = 0;
        while i < n
            invariant
                n == other.entries.len(),
                i <= n,
                v@.map_values(|e: String| e@) == old(self)@ + other@.take(i as int),
                forall|k: int| 0 <= k < v.len() ==> no_nul(#[trigger] v@[k]@),
                forall|k: int| 0 <= k < other.entries.len() ==> no_nul(#[trigger] other.entries@[k]@),
            decreases n - i,
        {
            let e = other.entries[i].clone();
            assert(other@[i as int] == other.entries@[i as int]@);
            assert(other@.take(i + 1) =~= other@.take(i as int).push(other@[i as int]));
            let ghost v_before = v@;
            v.push(e);
            assert(v@ == v_before.push(e));
            assert(v@.map_values(|e: String| e@) =~= v_before.map_values(|e: String| e@).push(e@));
            assert(v@.map_values(|e: String| e@) =~= old(self)@ + other@.take(i + 1));
            i = i + 1;
        }
        assert(other@.take(n as int) =~= other@);
        self.entries = v;
    }


    /// The list written one entry per line, each line ended by a newline.
    pub fn to_string(&self) -> (s: String)
        ensures
            s@ == render(self@),
    {
        let mut s = String::new();
        let n = self.entries.len();
        let mut i: usize = 0;
        while i < n
            invariant
                n == self.entries.len(),
                n == self@.len(),
                i <= n,
                s@ == render(self@.take(i as int)),
            decreases n - i,
        {
            s.append(self.entries[i].as_str());
            string_push(&mut s, '\n');
            assert(self@[i as int] == self.entries@[i as int]@);
            assert(self@.take(i + 1).drop_last() =~= self@.take(i as int));
            assert(s@ =~= render(self@.take(i + 1)));
            i = i + 1;
        }
        assert(self@.take(n as int) =~= self@);
        s
    }

    /// Sets the entry for `name` to `value`, as GDAL's `CSLSetNameValue` does
    /// (see `set_name_value_spec`).
    ///
    /// Fails, leaving the list unchanged, with `BadArgument` when `name` holds
    /// other characters than ASCII letters, digits and `_`, or when `value`
    /// holds a line break, and with `FfiNulError` when `value` holds a NUL.
    pub fn set_name_value(&mut self, name: &str, value: &str) -> (r: Result<(), GdalError>)
        ensures
            r is Ok <==> valid_name(name@) && valid_value(value@) && no_nul(value@),
            r is Ok ==> final(self)@ == set_name_value_spec(old(self)@, name@, value@),
            r is Err ==> final(self)@ == old(self)@,
            !valid_name(name@) ==> (r matches Err(GdalError::BadArgument(m)) && m@
                == invalid_name_message(name@)),
            valid_name(name@) && !valid_value(value@) ==> (r matches Err(
                GdalError::BadArgument(m),
            ) && m@ == invalid_value_message(value@)),
            valid_name(name@) && valid_value(value@) && !no_nul(value@) ==> (r matches Err(
                GdalError::FfiNulError,
            )),
    {
        let nn = name.unicode_len();
        let mut i: usize = 0;
        while i < nn
            invariant
                nn == name@.len(),
                i <= nn,
                forall|j: int| 0 <= j < i ==> is_name_char(#[trigger] name@[j]),
            decreases nn - i,
        {
            let c = name.get_char(i);
            if !(('a' <= c && c <= 'z') || ('A' <= c && c <= 'Z') || ('0' <= c && c <= '9') || c
                == '_') {
                let mut m = String::from_str("Invalid characters in name: '");
                m.append(name);
                m.append("'");
                return Err(GdalError::BadArgument(m));
            }
            i = i + 1;
        }
        if str_has_char(value, '\n') || str_has_char(value, '\r') {
            let mut m = String::from_str("Invalid characters in value: '");
            m.append(value);
            m.append("'");
            return Err(GdalError::BadArgument(m));
        }
        if str_has_char(value, '\0') {
            return Err(GdalError::FfiNulError);
        }
        proof {
            lemma_valid_name_no_nul(name@);
        }
        let ghost l = self@;
        let ghost sp = set_pred(name@);
        let mut v = self.take_entries();
        let n = v.len();
        let mut j: usize = 0;
        while j < n
            invariant
                n == v.len(),
                v@.map_values(|e: String| e@) == l,
                l == old(self)@,
                j <= n,
                forall|i: int| 0 <= i < j ==> !sp(#[trigger] l[i]),
                forall|i: int| 0 <= i < v.len() ==> no_nul(#[trigger] v@[i]@),
                no_nul(name@),
                no_nul(value@),
                valid_name(name@),
                valid_value(value@),
                nn == name@.len(),
                sp == set_pred(name@),
            decreases n - j,
        {
            assert(l[j as int] == v@[j as int]@);
            let e = v[j].as_str();
            let found = if str_starts_with_ci(e, name) {
                str_sep_after_spaces(e, nn)
            } else {
                None
            };
            match found {
                Some(idx) => {
                    proof {
                        assert(set_match(l[j as int], name@) == Some(idx as int));
                        assert(sp(l[j as int]));
                        lemma_find_first_at(l, sp, 0, j as int);
                        lemma_sep_after_spaces(e@, nn as int);
                    }
                    let sep = e.get_char(idx);
                    let mut ne = name.to_owned();
                    string_push(&mut ne, sep);
                    ne.append(value);
                    proof {
                        assert(sep != '\0');
                        lemma_push_no_nul(name@, sep);
                        lemma_concat_no_nul(name@.push(sep), value@);
                        assert(name@ + seq![sep] =~= name@.push(sep));
                    }
                    assert(ne@ == name@ + seq![l[j as int][set_match(l[j as int], name@)->0]] + value@);
                    v.set(j, ne);
                    assert(v@.map_values(|e: String| e@) =~= set_name_value_spec(l, name@, value@));
                    self.entries = v;
                    return Ok(());
                },
                None => {},
            }
            j = j + 1;
        }
        proof {
            lemma_find_first_none(l, sp, 0);
        }
        let mut ne = name.to_owned();
        string_push(&mut ne, '=');
        ne.append(value);
        proof {
            lemma_push_no_nul(name@, '=');
            lemma_concat_no_nul(name@.push('='), value@);
            assert(name@ + seq!['='] =~= name@.push('='));
        }
        v.push(ne);
        assert(v@.map_values(|e: String| e@) =~= set_name_value_spec(l, name@, value@));
        self.entries = v;
        Ok(())
    }

    /// The value of the first entry for `name`, as GDAL's `CSLFetchNameValue`
    /// reads it (see `fetch_name_value_spec`).
    pub fn fetch_name_value(&self, name: &str) -> (r: Option<String>)
        ensures
            r matches Some(s) ==> fetch_name_value_spec(self@, name@) == Some(s@),
            r is None <==> fetch_name_value_spec(self@, name@) is None,
    {
        let ghost l = self@;
        let ghost fp = fetch_pred(name@);
        let nn = name.unicode_len();
        let n = self.entries.len();
        let mut j: usize = 0;
        while j < n
            invariant
                n == self.entries.len(),
                l == self@,
                nn == name@.len(),
                j <= n,
                forall|i: int| 0 <= i < j ==> !fp(#[trigger] l[i]),
                fp == fetch_pred(name@),
            decreases n - j,
        {
            assert(l[j as int] == self.entries@[j as int]@);
            let e = self.entries[j].as_str();
            let en = e.unicode_len();
            if en > nn && str_starts_with_ci(e, name) {
                let c = e.get_char(nn);
                if c == '=' || c == ':' {
                    proof {
                        lemma_find_first_at(l, fp, 0, j as int);
                    }
                    let rest = e.substring_char(nn + 1, en);
                    assert(rest@ =~= l[j as int].skip(nn as int + 1));
                    return Some(rest.to_owned());
                }
            }
            j = j + 1;
        }
        proof {
            lemma_find_first_none(l, fp, 0);
        }
        None
    }

    /// Splits `s` into entries as GDAL's `CSLTokenizeString` does (see `tokenize`).
    ///
    /// Fails with `FfiNulError` when `s` holds a NUL character.
    pub fn parse(s: &str) -> (r: Result<CslStringList, GdalError>)
        ensures
            r is Ok <==> no_nul(s@),
            r matches Ok(l) ==> l@ == tokenize(s@),
            r is Err ==> r == Err::<CslStringList, GdalError>(GdalError::FfiNulError),
    {
        if str_has_char(s, '\0') {
            return Err(GdalError::FfiNulError);
        }
        let n = s.unicode_len();
        let mut acc: Vec<String> = Vec::new();
        let mut cur = String::new();
        let mut in_str = false;
        let mut i: usize = 0;
        proof {
            assert(acc@.map_values(|e: String| e@) =~= Seq::<Seq<char>>::empty());
        }
        while i < n
            invariant
                n == s@.len(),
                i <= n,
                no_nul(s@),
                tokenize_from(s@, i as int, cur@, in_str, acc@.map_values(|e: String| e@))
                    == tokenize(s@),
            decreases n - i,
        {
            let c = s.get_char(i);
            let ghost acc_v = acc@.map_values(|e: String| e@);
            let ghost cur_v = cur@;
            if !in_str && c == ' ' {
                if cur.as_str().unicode_len() > 0 {
                    acc.push(cur);
                    assert(acc@.map_values(|e: String| e@) =~= emit_token(acc_v, cur_v));
                } else {
                    assert(acc@.map_values(|e: String| e@) =~= emit_token(acc_v, cur_v));
                }
                cur = String::new();
                i = i + 1;
            } else if c == '"' {
                in_str = !in_str;
                i = i + 1;
            } else if in_str && c == '\\' && i + 1 < n && (s.get_char(i + 1) == '"' || s.get_char(i + 1) == '\\') {
                let e = s.get_char(i + 1);
                string_push(&mut cur, e);
                i = i + 2;
            } else {
                string_push(&mut cur, c);
                i = i + 1;
            }
        }
        let ghost acc_v = acc@.map_values(|e: String| e@);
        let ghost cur_v = cur@;
        if cur.as_str().unicode_len() > 0 {
            acc.push(cur);
        }
        assert(acc@.map_values(|e: String| e@) =~= emit_token(acc_v, cur_v));
        proof {
            lemma_tokenize_no_nul(s@, 0, Seq::empty(), false, Seq::empty());
            assert forall|k: int| 0 <= k < acc.len() implies no_nul(#[trigger] acc@[k]@) by {
                assert(acc@.map_values(|e: String| e@)[k] == acc@[k]@);
            }
        }
        let l = CslStringList { entries: acc };
        Ok(l)
    }
}

} // verus!

//! Paths of the test fixtures.

use vstd::prelude::*;
use vstd::string::StringExecFns;

verus! {

/// `base` with `p` pushed on, as `PathBuf::push` does on Unix: an absolute
/// `p` (one that begins with `/`) replaces `base`; otherwise a `/` is put
/// between them unless `base` is empty or already ends with one.
pub open spec fn path_join(base: Seq<char>, p: Seq<char>) -> Seq<char> {
    if p.len() > 0 && p[0] == '/' {
        p
    } else if base.len() == 0 || base.last() == '/' {
        base + p
    } else {
        base + seq!['/'] + p
    }
}

/// Pushes `p` onto the path `base` (see `path_join`).
pub fn join_path(base: &str, p: &str) -> (r: String)
    ensures
        r@ == path_join(base@, p@),
{
    let pn = p.unicode_len();
    if pn > 0 && p.get_char(0) == '/' {
        return p.to_owned();
    }
    let bn = base.unicode_len();
    let mut r = base.to_owned();
    if bn > 0 && base.get_char(bn - 1) != '/' {
        r.append("/");
        proof {
            reveal_strlit("/");
            assert(base@ + "/"@ =~= base@ + seq!['/']);
        }
    }
    r.append(p);
    r
}

/// The path of `filename` in the `fixtures` directory of the crate whose
/// manifest directory is `manifest_dir`.
pub fn fixture(manifest_dir: &str, filename: &str) -> (r: String)
    ensures
        r@ == path_join(path_join(manifest_dir@, "fixtures"@), filename@),
{
    let dir = join_path(manifest_dir, "fixtures");
    join_path(dir.as_str(), filename)
}

/// A `/vsimem/` (in-memory) path.
#[derive(Debug)]
pub struct InMemoryFixture {
    path: String,
}

/// `s` without the `/` characters it begins with.
pub open spec fn strip_leading_slashes(s: Seq<char>) -> Seq<char>
    decreases s.len(),
{
    if s.len() > 0 && s[0] == '/' {
        strip_leading_slashes(s.skip(1))
    } else {
        s
    }
}

/// The prefix of every in-memory path.
pub open spec fn vsimem_prefix() -> Seq<char> {
    "/vsimem/"@
}

/// Whether `p` lies under `/vsimem/`.
pub open spec fn under_vsimem(p: Seq<char>) -> bool {
    p.len() >= vsimem_prefix().len() && p.subrange(0, vsimem_prefix().len() as int)
        == vsimem_prefix()
}

/// `strip_leading_slashes(s)` is what follows the first `k` characters of
/// `s` when these are all `/`.
proof fn lemma_strip_from(s: Seq<char>, k: int)
    requires
        0 <= k <= s.len(),
        forall|j: int| 0 <= j < k ==> s[j] == '/',
    ensures
        strip_leading_slashes(s) == strip_leading_slashes(s.skip(k)),
    decreases k,
{
    if k > 0 {
        assert forall|j: int| 0 <= j < k - 1 implies s.skip(1)[j] == '/' by {
            assert(s.skip(1)[j] == s[j + 1]);
        }
        lemma_strip_from(s.skip(1), k - 1);
        assert(s.skip(1).skip(k - 1) =~= s.skip(k));
    } else {
        assert(s.skip(0) =~= s);
    }
}

impl InMemoryFixture {
    /// The path of the in-memory file itself.
    pub closed spec fn spec_path(&self) -> Seq<char> {
        self.path@
    }

    #[verifier::type_invariant]
    closed spec fn in_vsimem(self) -> bool {
        under_vsimem(self.path@)
    }

    /// The in-memory path of `filename`: `/vsimem/` followed by `filename`
    /// without the `/` characters it may begin with, so that every such
    /// path lies under `/vsimem/`.
    pub fn new(filename: &str) -> (f: Self)
        ensures
            f.spec_path() == vsimem_prefix() + strip_leading_slashes(filename@),
    {
        let n = filename.unicode_len();
        let mut i: usize = 0;
        while i < n && filename.get_char(i) == '/'
            invariant
                n == filename@.len(),
                i <= n,
                forall|j: int| 0 <= j < i ==> filename@[j] == '/',
            decreases n - i,
        {
            i = i + 1;
        }
        let rest = filename.substring_char(i, n);
        proof {
            lemma_strip_from(filename@, i as int);
            assert(rest@ =~= filename@.skip(i as int));
            if i < n {
                assert(filename@.skip(i as int)[0] != '/');
            }
            assert(strip_leading_slashes(filename@.skip(i as int)) == filename@.skip(i as int));
        }
        let mut path = String::from_str("/vsimem/");
        path.append(rest);
        proof {
            reveal_strlit("/vsimem/");
            assert(path@.subrange(0, 8) =~= vsimem_prefix());
        }
        InMemoryFixture { path }
    }

    /// The in-memory path; it lies under `/vsimem/`.
    pub fn path(&self) -> (p: &str)
        ensures
            p@ == self.spec_path(),
            under_vsimem(p@),
    {
        proof {
            use_type_invariant(self);
        }
        self.path.as_str()
    }
}

/// Every in-memory path lies under `/vsimem/`, whatever the file name.
pub proof fn law_in_memory_path_under_vsimem(filename: Seq<char>)
    ensures
        under_vsimem(vsimem_prefix() + strip_leading_slashes(filename)),
{
    let p = vsimem_prefix() + strip_leading_slashes(filename);
    assert(p.subrange(0, vsimem_prefix().len() as int) =~= vsimem_prefix());
}

} // verus!

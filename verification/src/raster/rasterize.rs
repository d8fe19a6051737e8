//! Settings for burning geometries into raster bands.

use vstd::prelude::*;
use crate::cpl::{
    eq_ci, fetch_name_value_spec, lemma_fetch_absent_name, lemma_fetch_entry_at,
    lemma_set_fresh_name, CslStringList,
};
use crate::text::{decimal, decimal_string, is_digit, lemma_decimal_digits};

verus! {

/// Where the values burned into the raster come from.
#[derive(Clone, Copy, Debug, PartialEq, Eq, Structural)]
pub enum BurnSource {
    /// Use whatever `burn_values` argument is supplied to `rasterize`.
    UserSupplied,
    /// Add the geometry's Z value to whatever `burn_values` argument is
    /// supplied to `rasterize`.
    Z,
}

/// How a burned value combines with the value already in the raster.
#[derive(Clone, Copy, Debug, PartialEq, Eq, Structural)]
pub enum MergeAlgorithm {
    Replace,
    Add,
}

/// Which of GDAL's rasterization strategies to use.
#[derive(Clone, Copy, Debug, PartialEq, Eq, Structural)]
pub enum OptimizeMode {
    Automatic,
    Raster,
    Vector,
}

/// Options that specify how to rasterize geometries.
#[derive(Clone, Copy, Debug, PartialEq, Eq, Structural)]
pub struct RasterizeOptions {
    /// Set to `true` to set all pixels touched by the line or polygons, not
    /// just those whose center is within the polygon or that are selected by
    /// Bresenham's line algorithm. Defaults to `false`.
    pub all_touched: bool,
    /// May be set to `BurnSource::Z` to use the Z values of the geometries;
    /// the burn value is added to them before burning. Defaults to
    /// `BurnSource::UserSupplied`, in which case just the burn value is burned.
    pub source: BurnSource,
    /// `MergeAlgorithm::Replace` (the default) overwrites the value, while
    /// `MergeAlgorithm::Add` adds the new value to the existing raster.
    pub merge_algorithm: MergeAlgorithm,
    /// The height in lines of the chunk to operate on; zero lets GDAL pick
    /// it from its cache size. Not used in `OPTIM=RASTER` mode.
    pub chunk_y_size: usize,
    /// The rasterization strategy.
    pub optimize: OptimizeMode,
}

/// The options that `RasterizeOptions::default` gives.
pub open spec fn default_rasterize_options() -> RasterizeOptions {
    RasterizeOptions {
        all_touched: false,
        source: BurnSource::UserSupplied,
        merge_algorithm: MergeAlgorithm::Replace,
        chunk_y_size: 0,
        optimize: OptimizeMode::Automatic,
    }
}

impl Default for RasterizeOptions {
    fn default() -> (o: Self)
        ensures
            o == default_rasterize_options(),
    {
        RasterizeOptions {
            all_touched: false,
            source: BurnSource::UserSupplied,
            merge_algorithm: MergeAlgorithm::Replace,
            chunk_y_size: 0,
            optimize: OptimizeMode::Automatic,
        }
    }
}

/// GDAL's spelling of a boolean option.
pub open spec fn bool_word(b: bool) -> Seq<char> {
    if b {
        "TRUE"@
    } else {
        "FALSE"@
    }
}

/// GDAL's name of a merge algorithm.
pub open spec fn merge_word(m: MergeAlgorithm) -> Seq<char> {
    match m {
        MergeAlgorithm::Replace => "REPLACE"@,
        MergeAlgorithm::Add => "ADD"@,
    }
}

/// GDAL's name of a rasterization strategy.
pub open spec fn optimize_word(o: OptimizeMode) -> Seq<char> {
    match o {
        OptimizeMode::Automatic => "AUTO"@,
        OptimizeMode::Raster => "RASTER"@,
        OptimizeMode::Vector => "VECTOR"@,
    }
}

/// The entry `key=value`.
pub open spec fn entry(key: Seq<char>, value: Seq<char>) -> Seq<char> {
    key + seq!['='] + value
}

/// The `NAME=VALUE` entries that GDAL's rasterizer reads for `o`, in order:
/// `ALL_TOUCHED`, `MERGE_ALG`, `CHUNKYSIZE`, `OPTIM`, and `BURN_VALUE_FROM=Z`
/// when the Z values are burned.
pub open spec fn rasterize_entries(o: RasterizeOptions) -> Seq<Seq<char>> {
    let base = seq![
        entry("ALL_TOUCHED"@, bool_word(o.all_touched)),
        entry("MERGE_ALG"@, merge_word(o.merge_algorithm)),
        entry("CHUNKYSIZE"@, decimal(o.chunk_y_size as nat)),
        entry("OPTIM"@, optimize_word(o.optimize)),
    ];
    match o.source {
        BurnSource::Z => base.push(entry("BURN_VALUE_FROM"@, "Z"@)),
        BurnSource::UserSupplied => base,
    }
}

/// A run of digits holds neither a line break nor a NUL.
proof fn lemma_digits_plain(s: Seq<char>)
    requires
        forall|i: int| 0 <= i < s.len() ==> is_digit(#[trigger] s[i]),
    ensures
        !s.contains('\n'),
        !s.contains('\r'),
        !s.contains('\0'),
{
    if s.contains('\n') || s.contains('\r') || s.contains('\0') {
        let i = choose|i: int|
            0 <= i < s.len() && (#[trigger] s[i] == '\n' || s[i] == '\r' || s[i] == '\0');
        assert(is_digit(s[i]));
    }
}

impl RasterizeOptions {
    /// The options as the `NAME=VALUE` list that GDAL's rasterizer reads
    /// (see `rasterize_entries`).
    pub fn to_options_list(&self) -> (l: CslStringList)
        ensures
            l@ == rasterize_entries(*self),
    {
        proof {
            reveal_strlit("ALL_TOUCHED");
            reveal_strlit("MERGE_ALG");
            reveal_strlit("CHUNKYSIZE");
            reveal_strlit("OPTIM");
            reveal_strlit("BURN_VALUE_FROM");
            reveal_strlit("TRUE");
            reveal_strlit("FALSE");
            reveal_strlit("REPLACE");
            reveal_strlit("ADD");
            reveal_strlit("AUTO");
            reveal_strlit("RASTER");
            reveal_strlit("VECTOR");
            reveal_strlit("Z");
        }
        let mut l = CslStringList::new();
        let touched = if self.all_touched {
            "TRUE"
        } else {
            "FALSE"
        };
        proof {
            lemma_set_fresh_name(l@, "ALL_TOUCHED"@, touched@);
        }
        let _ = l.set_name_value("ALL_TOUCHED", touched);
        let merge = match self.merge_algorithm {
            MergeAlgorithm::Replace => "REPLACE",
            MergeAlgorithm::Add => "ADD",
        };
        proof {
            assert(!eq_ci(l@[0][0], 'M'));
            lemma_set_fresh_name(l@, "MERGE_ALG"@, merge@);
        }
        let _ = l.set_name_value("MERGE_ALG", merge);
        let chunk = decimal_string(self.chunk_y_size as u64);
        proof {
            lemma_decimal_digits(self.chunk_y_size as nat);
            lemma_digits_plain(chunk@);
            assert(!eq_ci(l@[0][0], 'C'));
            assert(!eq_ci(l@[1][0], 'C'));
            lemma_set_fresh_name(l@, "CHUNKYSIZE"@, chunk@);
        }
        let _ = l.set_name_value("CHUNKYSIZE", chunk.as_str());
        let optim = match self.optimize {
            OptimizeMode::Automatic => "AUTO",
            OptimizeMode::Raster => "RASTER",
            OptimizeMode::Vector => "VECTOR",
        };
        proof {
            assert(!eq_ci(l@[0][0], 'O'));
            assert(!eq_ci(l@[1][0], 'O'));
            assert(!eq_ci(l@[2][0], 'O'));
            lemma_set_fresh_name(l@, "OPTIM"@, optim@);
        }
        let _ = l.set_name_value("OPTIM", optim);
        if let BurnSource::Z = self.source {
            proof {
                assert(!eq_ci(l@[0][0], 'B'));
                assert(!eq_ci(l@[1][0], 'B'));
                assert(!eq_ci(l@[2][0], 'B'));
                assert(!eq_ci(l@[3][0], 'B'));
                lemma_set_fresh_name(l@, "BURN_VALUE_FROM"@, "Z"@);
            }
            let _ = l.set_name_value("BURN_VALUE_FROM", "Z");
        }
        assert(l@ =~= rasterize_entries(*self));
        l
    }
}

/// Each setting of `o` reads back from its option list under its GDAL name,
/// and `BURN_VALUE_FROM` is there exactly when the Z values are burned.
pub proof fn law_rasterize_settings_read_back(o: RasterizeOptions)
    ensures
        fetch_name_value_spec(rasterize_entries(o), "ALL_TOUCHED"@) == Some(bool_word(o.all_touched)),
        fetch_name_value_spec(rasterize_entries(o), "MERGE_ALG"@) == Some(
            merge_word(o.merge_algorithm),
        ),
        fetch_name_value_spec(rasterize_entries(o), "CHUNKYSIZE"@) == Some(
            decimal(o.chunk_y_size as nat),
        ),
        fetch_name_value_spec(rasterize_entries(o), "OPTIM"@) == Some(optimize_word(o.optimize)),
        fetch_name_value_spec(rasterize_entries(o), "BURN_VALUE_FROM"@) == (match o.source {
            BurnSource::Z => Some("Z"@),
            BurnSource::UserSupplied => None,
        }),
{
    reveal_strlit("ALL_TOUCHED");
    reveal_strlit("MERGE_ALG");
    reveal_strlit("CHUNKYSIZE");
    reveal_strlit("OPTIM");
    reveal_strlit("BURN_VALUE_FROM");
    let l = rasterize_entries(o);
    assert(l[0][0] == 'A');
    assert(l[1][0] == 'M');
    assert(l[2][0] == 'C');
    assert(l[3][0] == 'O');
    lemma_fetch_entry_at(l, "ALL_TOUCHED"@, bool_word(o.all_touched), 0);
    lemma_fetch_entry_at(l, "MERGE_ALG"@, merge_word(o.merge_algorithm), 1);
    lemma_fetch_entry_at(l, "CHUNKYSIZE"@, decimal(o.chunk_y_size as nat), 2);
    lemma_fetch_entry_at(l, "OPTIM"@, optimize_word(o.optimize), 3);
    match o.source {
        BurnSource::Z => {
            assert(l[4][0] == 'B');
            lemma_fetch_entry_at(l, "BURN_VALUE_FROM"@, "Z"@, 4);
        },
        BurnSource::UserSupplied => {
            lemma_fetch_absent_name(l, "BURN_VALUE_FROM"@);
        },
    }
}

/// Whether `rasterize` accepts its arguments: at least one band, every band
/// number between 1 and the dataset's band count, and one burn value per
/// geometry.
pub open spec fn rasterize_args_ok(
    bands: Seq<isize>,
    n_geometries: nat,
    n_burn_values: nat,
    raster_count: isize,
) -> bool {
    &&& bands.len() > 0
    &&& n_burn_values == n_geometries
    &&& forall|i: int| 0 <= i < bands.len() ==> 0 < #[trigger] bands[i] <= raster_count
}

/// Checks the arguments of `rasterize` (see `rasterize_args_ok`).
pub fn check_rasterize_args(
    bands: &[isize],
    n_geometries: usize,
    n_burn_values: usize,
    raster_count: isize,
) -> (ok: bool)
    ensures
        ok == rasterize_args_ok(bands@, n_geometries as nat, n_burn_values as nat, raster_count),
{
    if bands.len() == 0 || n_burn_values != n_geometries {
        return false;
    }
    let mut i: usize = 0;
    while i < bands.len()
        invariant
            i <= bands@.len(),
            forall|k: int| 0 <= k < i ==> 0 < #[trigger] bands@[k] <= raster_count,
        decreases bands@.len() - i,
    {
        if !(bands[i] > 0 && bands[i] <= raster_count) {
            return false;
        }
        i = i + 1;
    }
    true
}

/// The band numbers as the C `int`s that GDAL takes.
pub fn band_numbers(bands: &[isize]) -> (r: Vec<i32>)
    requires
        forall|i: int| 0 <= i < bands@.len() ==> 0 < #[trigger] bands@[i] <= i32::MAX,
    ensures
        r@.len() == bands@.len(),
        forall|i: int| 0 <= i < bands@.len() ==> r@[i] == bands@[i],
{
    let mut r: Vec<i32> = Vec::new();
    let mut i: usize = 0;
    while i < bands.len()
        invariant
            i <= bands@.len(),
            r@.len() == i,
            forall|k: int| 0 <= k < bands@.len() ==> 0 < #[trigger] bands@[k] <= i32::MAX,
            forall|k: int| 0 <= k < i ==> r@[k] == bands@[k],
        decreases bands@.len() - i,
    {
        let b = bands[i];
        assert(0 < b <= i32::MAX);
        r.push(b as i32);
        i = i + 1;
    }
    r
}

/// Each burn value repeated once per band, as GDAL reads them: the value for
/// geometry `g` and band `b` stands at `g * n_bands + b`.
pub fn burn_values_per_band<T: Copy>(values: &[T], n_bands: usize) -> (r: Vec<T>)
    requires
        n_bands > 0,
        values@.len() * n_bands <= usize::MAX,
    ensures
        r@.len() == values@.len() * n_bands,
        forall|k: int| 0 <= k < r@.len() ==> r@[k] == values@[k / n_bands as int],
{
    let mut r: Vec<T> = Vec::new();
    let m = values.len();
    let mut i: usize = 0;
    while i < m
        invariant
            m == values@.len(),
            n_bands > 0,
            m * n_bands <= usize::MAX,
            i <= m,
            r@.len() == i * n_bands,
            forall|k: int| 0 <= k < r@.len() ==> r@[k] == values@[k / n_bands as int],
        decreases m - i,
    {
        let v = values[i];
        let mut j: usize = 0;
        assert(i * n_bands + n_bands <= m * n_bands) by (nonlinear_arith)
            requires
                i < m,
        ;
        while j < n_bands
            invariant
                m == values@.len(),
                n_bands > 0,
                i < m,
                j <= n_bands,
                i * n_bands + n_bands <= m * n_bands,
                m * n_bands <= usize::MAX,
                r@.len() == i * n_bands + j,
                v == values@[i as int],
                forall|k: int| 0 <= k < r@.len() ==> r@[k] == values@[k / n_bands as int],
            decreases n_bands - j,
        {
            proof {
                vstd::arithmetic::div_mod::lemma_fundamental_div_mod_converse_div(
                    i * n_bands + j,
                    n_bands as int,
                    i as int,
                    j as int,
                );
            }
            r.push(v);
            j = j + 1;
        }
        assert((i + 1) * n_bands == i * n_bands + n_bands) by (nonlinear_arith);
        i = i + 1;
    }
    r
}

} // verus!

//! GDAL raster settings and values.

pub mod buffer;
pub mod dem;
pub mod gdal_enums;
pub mod mdarray;
pub mod processing;
pub mod rasterband;
pub mod rasterize;
pub mod types;

use vstd::prelude::*;
use crate::cpl::{
    fetch_name_value_spec, is_set_name_value_error, law_fetch_after_set, name_value_ok,
    set_name_value_spec, CslStringList,
};
use crate::errors::{GdalError, Result};

verus! {

/// Key/value pair for passing driver-specific creation options to a
/// driver's `Create` (GDAL's `papszOptions`).
#[derive(Debug)]
pub struct RasterCreationOption<'a> {
    pub key: &'a str,
    pub value: &'a str,
}

/// The list obtained by setting each option in turn, from an empty list.
pub open spec fn creation_entries(opts: Seq<RasterCreationOption>) -> Seq<Seq<char>>
    decreases opts.len(),
{
    if opts.len() == 0 {
        Seq::empty()
    } else {
        set_name_value_spec(
            creation_entries(opts.drop_last()),
            opts.last().key@,
            opts.last().value@,
        )
    }
}

/// Whether every option is one that `set_name_value` accepts.
pub open spec fn creation_options_ok(opts: Seq<RasterCreationOption>) -> bool {
    forall|i: int| 0 <= i < opts.len() ==> name_value_ok(#[trigger] opts[i].key@, opts[i].value@)
}

/// The creation options as the `NAME=VALUE` list that GDAL's drivers read;
/// a later option for the same name replaces the value of an earlier one.
///
/// Fails on the first option that `set_name_value` refuses, with its error.
pub fn creation_options_list(options: &[RasterCreationOption]) -> (r: Result<CslStringList>)
    ensures
        r is Ok <==> creation_options_ok(options@),
        r matches Ok(l) ==> l@ == creation_entries(options@),
        r matches Err(e) ==> exists|j: int|
            0 <= j < options@.len() && creation_options_ok(options@.take(j)) && !name_value_ok(
                options@[j].key@,
                options@[j].value@,
            ) && is_set_name_value_error(e, options@[j].key@, options@[j].value@),
{
    let mut l = CslStringList::new();
    let mut i: usize = 0;
    assert(options@.take(0) =~= Seq::<RasterCreationOption>::empty());
    while i < options.len()
        invariant
            i <= options@.len(),
            creation_options_ok(options@.take(i as int)),
            l@ == creation_entries(options@.take(i as int)),
        decreases options@.len() - i,
    {
        let o = &options[i];
        let r = l.set_name_value(o.key, o.value);
        let ghost t = options@.take(i + 1);
        assert(t.drop_last() =~= options@.take(i as int));
        assert(t.last() == options@[i as int]);
        match r {
            Ok(()) => {
                assert(creation_options_ok(t)) by {
                    assert forall|k: int| 0 <= k < t.len() implies name_value_ok(
                        #[trigger] t[k].key@,
                        t[k].value@,
                    ) by {
                        if k < i {
                            assert(t[k] == options@.take(i as int)[k]);
                        }
                    }
                }
            },
            Err(e) => {
                assert(is_set_name_value_error(e, options@[i as int].key@, options@[i as int].value@));
                return Err(e);
            },
        }
        i = i + 1;
    }
    assert(options@.take(options@.len() as int) =~= options@);
    Ok(l)
}

/// The driver reads the value of the last creation option back under its name.
pub proof fn law_last_creation_option_wins(opts: Seq<RasterCreationOption>)
    requires
        opts.len() > 0,
    ensures
        fetch_name_value_spec(creation_entries(opts), opts.last().key@) == Some(opts.last().value@),
{
    law_fetch_after_set(creation_entries(opts.drop_last()), opts.last().key@, opts.last().value@);
}

} // verus!

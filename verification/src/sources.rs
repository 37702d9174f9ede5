//! Selecting and concatenating the configuration source files of a
//! directory.  Reading the directory itself is the caller's task; the
//! selection rule and the concatenation live here.

use vstd::prelude::*;
use vstd::string::StringExecFns;
use crate::strutil::{ends_with, spec_ends_with};

verus! {

/// True exactly when a directory entry is a configuration source file,
/// recognized by its extension.
pub fn is_config_file_name(name: &str) -> (r: bool)
    ensures
        r == spec_ends_with(name@, ".star"@),
{
    ends_with(name, ".star")
}

/// The concatenation of the sources, in the order given.
pub open spec fn spec_concat_sources(sources: Seq<Seq<char>>) -> Seq<char>
    decreases sources.len(),
{
    if sources.len() == 0 {
        Seq::empty()
    } else {
        spec_concat_sources(sources.drop_last()) + sources.last()
    }
}

/// Joins the source texts into the one text that is evaluated, keeping
/// the given order.
pub fn concat_sources(sources: &Vec<String>) -> (r: String)
    ensures
        r@ == spec_concat_sources(sources.deep_view()),
{
    let mut out = String::new();
    let mut i: usize = 0;
    proof {
        assert(sources.deep_view().take(0) =~= Seq::<Seq<char>>::empty());
        assert(out@ =~= spec_concat_sources(sources.deep_view().take(0)));
    }
    while i < sources.len()
        invariant
            i <= sources.len(),
            out@ == spec_concat_sources(sources.deep_view().take(i as int)),
        decreases sources.len() - i,
    {
        proof {
            assert(sources.deep_view().take(i + 1).drop_last() =~= sources.deep_view().take(
                i as int,
            ));
            assert(sources.deep_view().take(i + 1).last() == sources.deep_view()[i as int]);
        }
        out.append(sources[i].as_str());
        i += 1;
    }
    proof {
        assert(sources.deep_view().take(sources.len() as int) =~= sources.deep_view());
    }
    out
}

} // verus!

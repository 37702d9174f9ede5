//! Locating the one on-disk artifact that implements a module descriptor.

use vstd::prelude::*;
use vstd::string::StringExecFns;
use crate::errors::PluginError;
use crate::strutil::{chars_eq, concat_str};

verus! {

/// A resolved, on-disk compiled module: the artifact's file name and its
/// full path.  Discovered per load request and never cached.
#[derive(Debug, PartialEq, Eq)]
pub struct PluginArtifact {
    pub name: String,
    pub path: String,
}

/// Whether a directory entry implements the module: its file name must be
/// exactly the module name, or the module name and version joined by `-`,
/// with the binary-module extension.
pub open spec fn spec_is_plugin_match(file: Seq<char>, name: Seq<char>, version: Seq<char>) -> bool {
    file == name + ".wasm"@ || file == name + "-"@ + version + ".wasm"@
}

/// How many directory entries implement the module.
pub open spec fn spec_match_count(entries: Seq<Seq<char>>, name: Seq<char>, version: Seq<char>) -> nat
    decreases entries.len(),
{
    if entries.len() == 0 {
        0
    } else {
        spec_match_count(entries.drop_last(), name, version) + (if spec_is_plugin_match(
            entries.last(),
            name,
            version,
        ) {
            1nat
        } else {
            0nat
        })
    }
}

/// Law: the matches of a whole directory listing are the matches of any
/// front part plus the matches of the rest.
pub proof fn lemma_match_count_split(
    entries: Seq<Seq<char>>,
    j: int,
    name: Seq<char>,
    version: Seq<char>,
)
    requires
        0 <= j <= entries.len(),
    ensures
        spec_match_count(entries, name, version) == spec_match_count(entries.take(j), name, version)
            + spec_match_count(entries.skip(j), name, version),
    decreases entries.len(),
{
    if j == entries.len() {
        assert(entries.take(j) =~= entries);
        assert(entries.skip(j) =~= Seq::<Seq<char>>::empty());
    } else {
        let dl = entries.drop_last();
        lemma_match_count_split(dl, j, name, version);
        assert(entries.take(j) =~= dl.take(j));
        assert(entries.skip(j).drop_last() =~= dl.skip(j));
        assert(entries.skip(j).last() == entries.last());
        assert(entries.skip(j).len() > 0);
    }
}

/// Finds the one artifact among the directory entries that implements the
/// module.  No entry is `PluginNotFound`; several are `AmbiguousPlugin`,
/// never a silent first pick.  On success the artifact's name is the
/// matching entry, and its path joins the directory and that entry.
pub fn resolve_plugin(entries: &Vec<String>, dir: &str, name: &str, version: &str) -> (r: Result<
    PluginArtifact,
    PluginError,
>)
    ensures
        match r {
            Ok(a) => {
                &&& spec_match_count(entries.deep_view(), name@, version@) == 1
                &&& exists|i: int|
                    0 <= i < entries@.len() && spec_is_plugin_match(
                        entries.deep_view()[i],
                        name@,
                        version@,
                    ) && a.name@ == entries.deep_view()[i]
                &&& a.path@ == dir@ + "/"@ + a.name@
            },
            Err(PluginError::NotFound(n)) => n@ == name@ && spec_match_count(
                entries.deep_view(),
                name@,
                version@,
            ) == 0,
            Err(PluginError::Ambiguous(n)) => n@ == name@ && spec_match_count(
                entries.deep_view(),
                name@,
                version@,
            ) >= 2,
        },
{
    let exact = concat_str(name, ".wasm");
    let dashed = concat_str(name, "-");
    let mut versioned = concat_str(dashed.as_str(), version);
    versioned.append(".wasm");
    let mut found: Option<usize> = None;
    let mut i: usize = 0;
    proof {
        assert(entries.deep_view().take(0) =~= Seq::<Seq<char>>::empty());
    }
    while i < entries.len()
        invariant
            i <= entries.len(),
            exact@ == name@ + ".wasm"@,
            versioned@ == name@ + "-"@ + version@ + ".wasm"@,
            match found {
                None => spec_match_count(entries.deep_view().take(i as int), name@, version@)
                    == 0,
                Some(k) => {
                    &&& k < i
                    &&& spec_is_plugin_match(entries.deep_view()[k as int], name@, version@)
                    &&& spec_match_count(entries.deep_view().take(i as int), name@, version@)
                        == 1
                },
            },
        decreases entries.len() - i,
    {
        proof {
            assert(entries.deep_view().take(i + 1).drop_last() =~= entries.deep_view().take(
                i as int,
            ));
            assert(entries.deep_view().take(i + 1).last() == entries.deep_view()[i as int]);
        }
        let is_match = chars_eq(entries[i].as_str(), exact.as_str()) || chars_eq(
            entries[i].as_str(),
            versioned.as_str(),
        );
        if is_match {
            if found.is_some() {
                proof {
                    lemma_match_count_split(entries.deep_view(), i + 1, name@, version@);
                    assert(spec_match_count(entries.deep_view().take(i + 1), name@, version@)
                        == 2);
                }
                return Err(PluginError::Ambiguous(String::from_str(name)));
            }
            found = Some(i);
        }
        i += 1;
    }
    proof {
        assert(entries.deep_view().take(entries.len() as int) =~= entries.deep_view());
    }
    match found {
        Some(k) => {
            let file = entries[k].clone();
            let dir_slash = concat_str(dir, "/");
            let path = concat_str(dir_slash.as_str(), file.as_str());
            proof {
                assert(spec_is_plugin_match(entries.deep_view()[k as int], name@, version@)
                    && file@ == entries.deep_view()[k as int]);
            }
            Ok(PluginArtifact { name: file, path })
        },
        None => Err(PluginError::NotFound(String::from_str(name))),
    }
}

} // verus!

//! The validated descriptor of one provider module: its identity and the
//! capabilities and mounts it requests.

use vstd::prelude::*;
use crate::caps::PluginCaps;
use crate::mounts::{MountV, PluginMount};

verus! {

/// A capability-set value: the inherited capabilities and mounts collected
/// by one `capabilities(...)` declaration, in declaration order.
#[derive(Debug, Clone, PartialEq, Eq)]
pub struct PluginCapabilities {
    pub inherits: Vec<PluginCaps>,
    pub mounts: Vec<PluginMount>,
}

/// The mathematical model of a capability-set value.
pub struct CapSetV {
    pub inherits: Seq<PluginCaps>,
    pub mounts: Seq<MountV>,
}

impl View for PluginCapabilities {
    type V = CapSetV;

    open spec fn view(&self) -> CapSetV {
        CapSetV { inherits: self.inherits@, mounts: self.mounts.deep_view() }
    }
}

/// The evaluated descriptor of one provider module.  Constructed only by
/// configuration evaluation and immutable afterwards.  Capabilities carry
/// set semantics: duplicates are collapsed to the first occurrence.  Mount
/// order is irrelevant to meaning but preserved for diagnostics.
#[derive(Debug, Clone, PartialEq, Eq)]
pub struct CloudModule {
    pub name: String,
    pub version: String,
    pub capabilities: Vec<PluginCaps>,
    pub mounts: Vec<PluginMount>,
}

/// The mathematical model of a module descriptor.
pub struct ModuleV {
    pub name: Seq<char>,
    pub version: Seq<char>,
    pub capabilities: Seq<PluginCaps>,
    pub mounts: Seq<MountV>,
}

impl View for CloudModule {
    type V = ModuleV;

    open spec fn view(&self) -> ModuleV {
        ModuleV {
            name: self.name@,
            version: self.version@,
            capabilities: self.capabilities@,
            mounts: self.mounts.deep_view(),
        }
    }
}

/// A well-formed module descriptor: a non-empty name and version, each
/// capability at most once, and every mount well-formed.  Evaluation
/// establishes this for every descriptor it returns, and the descriptor
/// is immutable afterwards.
pub open spec fn spec_module_wf(m: ModuleV) -> bool {
    &&& m.name.len() > 0
    &&& m.version.len() > 0
    &&& spec_caps_unique(m.capabilities)
    &&& forall|k: int| 0 <= k < m.mounts.len() ==> crate::mounts::spec_mount_wf(#[trigger] m.mounts[k])
}

/// The sequence with later duplicates dropped: each capability keeps its
/// first occurrence only.
pub open spec fn spec_dedup_caps(s: Seq<PluginCaps>) -> Seq<PluginCaps>
    decreases s.len(),
{
    if s.len() == 0 {
        Seq::empty()
    } else {
        let d = spec_dedup_caps(s.drop_last());
        if d.contains(s.last()) {
            d
        } else {
            d.push(s.last())
        }
    }
}

/// Law: collapsing duplicates keeps membership exactly.
pub proof fn lemma_dedup_caps_membership(s: Seq<PluginCaps>, c: PluginCaps)
    ensures
        spec_dedup_caps(s).contains(c) == s.contains(c),
    decreases s.len(),
{
    if s.len() > 0 {
        let dl = s.drop_last();
        lemma_dedup_caps_membership(dl, c);
        let d = spec_dedup_caps(dl);
        assert(s.contains(c) == (dl.contains(c) || s.last() == c)) by {
            if s.contains(c) {
                let i = choose|i: int| 0 <= i < s.len() && s[i] == c;
                if i < s.len() - 1 {
                    assert(dl[i] == c);
                    assert(dl.contains(c));
                }
            }
            if dl.contains(c) {
                let i = choose|i: int| 0 <= i < dl.len() && dl[i] == c;
                assert(s[i] == c);
                assert(s.contains(c));
            }
            if s.last() == c {
                assert(s[s.len() - 1] == c);
                assert(s.contains(c));
            }
        }
        if !d.contains(s.last()) {
            let p = d.push(s.last());
            assert(p.contains(c) == (d.contains(c) || s.last() == c)) by {
                if d.contains(c) {
                    let i = choose|i: int| 0 <= i < d.len() && d[i] == c;
                    assert(p[i] == c);
                    assert(p.contains(c));
                }
                assert(p[d.len() as int] == s.last());
                if s.last() == c {
                    assert(p.contains(c));
                }
                if p.contains(c) {
                    let i = choose|i: int| 0 <= i < p.len() && p[i] == c;
                    if i < d.len() {
                        assert(d[i] == c);
                        assert(d.contains(c));
                    }
                }
            }
        }
    }
}

/// True exactly when the sequence holds no capability twice.
pub open spec fn spec_caps_unique(s: Seq<PluginCaps>) -> bool {
    forall|i: int, j: int| 0 <= i < j < s.len() ==> s[i] != s[j]
}

/// Law: collapsing duplicates leaves no capability twice.
pub proof fn lemma_dedup_caps_unique(s: Seq<PluginCaps>)
    ensures
        spec_caps_unique(spec_dedup_caps(s)),
    decreases s.len(),
{
    if s.len() > 0 {
        lemma_dedup_caps_unique(s.drop_last());
        let d = spec_dedup_caps(s.drop_last());
        if !d.contains(s.last()) {
            assert forall|i: int, j: int|
                0 <= i < j < d.push(s.last()).len() implies d.push(s.last())[i] != d.push(
                s.last(),
            )[j] by {
                if j < d.len() {
                } else {
                    assert(d.push(s.last())[j] == s.last());
                    assert(d[i] == d.push(s.last())[i]);
                    assert(d.contains(d[i]));
                }
            }
        }
    }
}

/// True exactly when the sequence holds the capability.
pub fn caps_contain(v: &Vec<PluginCaps>, c: PluginCaps) -> (r: bool)
    ensures
        r == v@.contains(c),
{
    let mut i: usize = 0;
    while i < v.len()
        invariant
            i <= v.len(),
            forall|j: int| 0 <= j < i ==> v@[j] != c,
        decreases v.len() - i,
    {
        if v[i] == c {
            return true;
        }
        i += 1;
    }
    false
}

/// Drops later duplicates, keeping the first occurrence of each capability.
pub fn dedup_caps(v: &Vec<PluginCaps>) -> (r: Vec<PluginCaps>)
    ensures
        r@ == spec_dedup_caps(v@),
{
    let mut out: Vec<PluginCaps> = Vec::new();
    let mut i: usize = 0;
    proof {
        assert(v@.take(0) =~= Seq::<PluginCaps>::empty());
    }
    while i < v.len()
        invariant
            i <= v.len(),
            out@ == spec_dedup_caps(v@.take(i as int)),
        decreases v.len() - i,
    {
        proof {
            assert(v@.take(i + 1).drop_last() =~= v@.take(i as int));
            assert(v@.take(i + 1).last() == v@[i as int]);
        }
        if !caps_contain(&out, v[i]) {
            out.push(v[i]);
        }
        i += 1;
    }
    proof {
        assert(v@.take(v.len() as int) =~= v@);
    }
    out
}

} // verus!

//! Translation of a module descriptor into the execution context it is
//! granted: a default-deny baseline plus exactly the declared capabilities
//! and mounts.

use vstd::prelude::*;
use crate::caps::PluginCaps;
use crate::descriptor::CloudModule;
use crate::mounts::{clone_mount, PluginMount};

verus! {

/// The isolated execution surface granted to one plugin instance: one flag
/// per inheritable capability, plus the declared mounts with their exact
/// permission bits.  With the capability vocabulary a closed enumeration,
/// a grant that fails to translate cannot be expressed, so construction
/// from a descriptor cannot fail.
#[derive(Debug, PartialEq, Eq)]
pub struct SandboxContext {
    pub inherit_args: bool,
    pub inherit_env: bool,
    pub inherit_stdin: bool,
    pub inherit_stdio: bool,
    pub inherit_stdout: bool,
    pub inherit_network: bool,
    pub allow_ip_name_lookup: bool,
    pub mounts: Vec<PluginMount>,
}

/// Whether the context grants the capability.
pub open spec fn spec_granted(ctx: SandboxContext, c: PluginCaps) -> bool {
    match c {
        PluginCaps::InheritArgs => ctx.inherit_args,
        PluginCaps::InheritEnv => ctx.inherit_env,
        PluginCaps::InheritStdin => ctx.inherit_stdin,
        PluginCaps::InheritStdio => ctx.inherit_stdio,
        PluginCaps::InheritStdout => ctx.inherit_stdout,
        PluginCaps::InheritNetwork => ctx.inherit_network,
        PluginCaps::AllowIpNameLookup => ctx.allow_ip_name_lookup,
    }
}

/// The context with one more capability granted and nothing else changed.
pub open spec fn spec_enable(ctx: SandboxContext, c: PluginCaps) -> SandboxContext {
    match c {
        PluginCaps::InheritArgs => SandboxContext { inherit_args: true, ..ctx },
        PluginCaps::InheritEnv => SandboxContext { inherit_env: true, ..ctx },
        PluginCaps::InheritStdin => SandboxContext { inherit_stdin: true, ..ctx },
        PluginCaps::InheritStdio => SandboxContext { inherit_stdio: true, ..ctx },
        PluginCaps::InheritStdout => SandboxContext { inherit_stdout: true, ..ctx },
        PluginCaps::InheritNetwork => SandboxContext { inherit_network: true, ..ctx },
        PluginCaps::AllowIpNameLookup => SandboxContext { allow_ip_name_lookup: true, ..ctx },
    }
}

/// Law: enabling grants exactly the named capability, leaves every other
/// grant as it was, and does not touch the mounts.
pub proof fn lemma_enable_grants_exactly(ctx: SandboxContext, c: PluginCaps)
    ensures
        forall|c2: PluginCaps|
            spec_granted(spec_enable(ctx, c), c2) == (spec_granted(ctx, c2) || c2 == c),
        spec_enable(ctx, c).mounts == ctx.mounts,
{
}

/// Law: enabling the same capability twice yields the very context that
/// enabling it once yields.
pub proof fn lemma_enable_idempotent(ctx: SandboxContext, c: PluginCaps)
    ensures
        spec_enable(spec_enable(ctx, c), c) == spec_enable(ctx, c),
{
}

impl SandboxContext {
    /// The all-denied baseline: no inheritance, no network, no mounts.
    pub fn new() -> (r: SandboxContext)
        ensures
            forall|c: PluginCaps| !spec_granted(r, c),
            !r.inherit_args && !r.inherit_env && !r.inherit_stdin && !r.inherit_stdio
                && !r.inherit_stdout && !r.inherit_network && !r.allow_ip_name_lookup,
            r.mounts@.len() == 0,
    {
        SandboxContext {
            inherit_args: false,
            inherit_env: false,
            inherit_stdin: false,
            inherit_stdio: false,
            inherit_stdout: false,
            inherit_network: false,
            allow_ip_name_lookup: false,
            mounts: Vec::new(),
        }
    }

    /// Grants one capability.  Additive and idempotent: nothing else
    /// changes, and a grant already held stays exactly as it was.
    pub fn enable(&mut self, c: PluginCaps)
        ensures
            *final(self) == spec_enable(*old(self), c),
    {
        match c {
            PluginCaps::InheritArgs => self.inherit_args = true,
            PluginCaps::InheritEnv => self.inherit_env = true,
            PluginCaps::InheritStdin => self.inherit_stdin = true,
            PluginCaps::InheritStdio => self.inherit_stdio = true,
            PluginCaps::InheritStdout => self.inherit_stdout = true,
            PluginCaps::InheritNetwork => self.inherit_network = true,
            PluginCaps::AllowIpNameLookup => self.allow_ip_name_lookup = true,
        }
    }

    /// Exposes one more host path inside the sandbox, with exactly the
    /// declared permission bits.  Grants are unchanged.
    pub fn add_mount(&mut self, m: PluginMount)
        ensures
            final(self).mounts@ == old(self).mounts@.push(m),
            forall|c: PluginCaps| spec_granted(*final(self), c) == spec_granted(*old(self), c),
    {
        self.mounts.push(m);
    }
}

/// Builds the execution context a descriptor is owed: starting from the
/// all-denied baseline, grants exactly the declared capabilities and
/// applies every declared mount with its exact permission bits.
pub fn build_context(d: &CloudModule) -> (r: SandboxContext)
    ensures
        forall|c: PluginCaps| spec_granted(r, c) == d.capabilities@.contains(c),
        r.mounts@ == d.mounts@,
{
    let mut ctx = SandboxContext::new();
    let mut i: usize = 0;
    while i < d.capabilities.len()
        invariant
            i <= d.capabilities.len(),
            forall|c: PluginCaps|
                spec_granted(ctx, c) == d.capabilities@.take(i as int).contains(c),
            ctx.mounts@.len() == 0,
        decreases d.capabilities.len() - i,
    {
        let ghost before = ctx;
        ctx.enable(d.capabilities[i]);
        proof {
            let t1 = d.capabilities@.take(i + 1);
            assert forall|c: PluginCaps| spec_granted(ctx, c) == t1.contains(c) by {
                assert(spec_granted(ctx, c) == (spec_granted(before, c) || c
                    == d.capabilities@[i as int]));
                if t1.contains(c) {
                    let k = choose|k: int| 0 <= k < t1.len() && t1[k] == c;
                    if k < i {
                        assert(d.capabilities@.take(i as int)[k] == c);
                    }
                }
                if d.capabilities@.take(i as int).contains(c) {
                    let k = choose|k: int|
                        0 <= k < i && d.capabilities@.take(i as int)[k] == c;
                    assert(t1[k] == c);
                }
                if c == d.capabilities@[i as int] {
                    assert(t1[i as int] == c);
                }
            }
        }
        i += 1;
    }
    proof {
        assert(d.capabilities@.take(d.capabilities.len() as int) =~= d.capabilities@);
    }
    let mut j: usize = 0;
    while j < d.mounts.len()
        invariant
            j <= d.mounts.len(),
            forall|c: PluginCaps| spec_granted(ctx, c) == d.capabilities@.contains(c),
            ctx.mounts@ == d.mounts@.take(j as int),
        decreases d.mounts.len() - j,
    {
        ctx.add_mount(clone_mount(&d.mounts[j]));
        proof {
            assert(d.mounts@.take(j + 1) =~= d.mounts@.take(j as int).push(d.mounts@[j as int]));
        }
        j += 1;
    }
    proof {
        assert(d.mounts@.take(d.mounts.len() as int) =~= d.mounts@);
    }
    ctx
}

} // verus!

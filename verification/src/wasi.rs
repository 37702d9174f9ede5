//! Handing a sandbox context's grants over to the execution engine.  The
//! engine's context builder starts from the same default-deny baseline the
//! sandbox model does; each granted capability maps to exactly one builder
//! call, and the exhaustive match keeps a newly added capability from ever
//! being silently ignored.  The builder's state is opaque to this crate,
//! so what it holds is tracked through one name, `spec_builder_grants`:
//! the set of capabilities enabled on the builder so far.

use vstd::prelude::*;
use crate::caps::PluginCaps;
use crate::sandbox::{spec_granted, SandboxContext};

verus! {

#[verifier::external_type_specification]
#[verifier::external_body]
pub struct ExWasiCtxBuilder(wasmtime_wasi::WasiCtxBuilder);

/// The set of capabilities that have been enabled on the engine's context
/// builder.  The builder is opaque, so this names its grant surface; the
/// trusted wrappers below say how each call changes it.
pub uninterp spec fn spec_builder_grants(b: wasmtime_wasi::WasiCtxBuilder) -> Set<PluginCaps>;

/// Relies on wasmtime_wasi::WasiCtxBuilder::new: a fresh builder denies
/// everything this crate models — no arguments, no environment, closed
/// stdin, discarded output, all socket addresses denied, IP name lookup
/// off.
#[verifier::external_body]
pub fn new_engine_ctx_builder() -> (b: wasmtime_wasi::WasiCtxBuilder)
    ensures
        spec_builder_grants(b) == Set::<PluginCaps>::empty(),
{
    wasmtime_wasi::WasiCtxBuilder::new()
}

/// Relies on wasmtime_wasi::WasiCtxBuilder::inherit_args: appends the
/// host process's arguments, enabling exactly that grant.  The engine's
/// call reads `std::env::args`, which panics on a non-Unicode argument;
/// that depends on the host process, not on any parameter here, so no
/// precondition can exclude it.
#[verifier::external_body]
fn builder_inherit_args(b: &mut wasmtime_wasi::WasiCtxBuilder)
    ensures
        spec_builder_grants(*final(b)) == spec_builder_grants(*old(b)).insert(
            PluginCaps::InheritArgs,
        ),
{
    b.inherit_args();
}

/// Relies on wasmtime_wasi::WasiCtxBuilder::inherit_env: appends the host
/// process's environment variables, enabling exactly that grant.  The
/// engine's call reads `std::env::vars`, which panics on a non-Unicode
/// entry; that depends on the host process, not on any parameter here,
/// so no precondition can exclude it.
#[verifier::external_body]
fn builder_inherit_env(b: &mut wasmtime_wasi::WasiCtxBuilder)
    ensures
        spec_builder_grants(*final(b)) == spec_builder_grants(*old(b)).insert(
            PluginCaps::InheritEnv,
        ),
{
    b.inherit_env();
}

/// Relies on wasmtime_wasi::WasiCtxBuilder::inherit_stdin: reads the host
/// process's standard input, enabling exactly that grant.
#[verifier::external_body]
fn builder_inherit_stdin(b: &mut wasmtime_wasi::WasiCtxBuilder)
    ensures
        spec_builder_grants(*final(b)) == spec_builder_grants(*old(b)).insert(
            PluginCaps::InheritStdin,
        ),
{
    b.inherit_stdin();
}

/// Relies on wasmtime_wasi::WasiCtxBuilder::inherit_stdio: inherits all
/// three standard streams, enabling exactly that grant.
#[verifier::external_body]
fn builder_inherit_stdio(b: &mut wasmtime_wasi::WasiCtxBuilder)
    ensures
        spec_builder_grants(*final(b)) == spec_builder_grants(*old(b)).insert(
            PluginCaps::InheritStdio,
        ),
{
    b.inherit_stdio();
}

/// Relies on wasmtime_wasi::WasiCtxBuilder::inherit_stdout: writes to the
/// host process's standard output, enabling exactly that grant.
#[verifier::external_body]
fn builder_inherit_stdout(b: &mut wasmtime_wasi::WasiCtxBuilder)
    ensures
        spec_builder_grants(*final(b)) == spec_builder_grants(*old(b)).insert(
            PluginCaps::InheritStdout,
        ),
{
    b.inherit_stdout();
}

/// Relies on wasmtime_wasi::WasiCtxBuilder::inherit_network: permits
/// socket use on any address, enabling exactly that grant.
#[verifier::external_body]
fn builder_inherit_network(b: &mut wasmtime_wasi::WasiCtxBuilder)
    ensures
        spec_builder_grants(*final(b)) == spec_builder_grants(*old(b)).insert(
            PluginCaps::InheritNetwork,
        ),
{
    b.inherit_network();
}

/// Relies on wasmtime_wasi::WasiCtxBuilder::allow_ip_name_lookup: permits
/// IP name resolution, enabling exactly that grant.
#[verifier::external_body]
fn builder_allow_ip_name_lookup(b: &mut wasmtime_wasi::WasiCtxBuilder)
    ensures
        spec_builder_grants(*final(b)) == spec_builder_grants(*old(b)).insert(
            PluginCaps::AllowIpNameLookup,
        ),
{
    b.allow_ip_name_lookup(true);
}

/// Makes on the engine's builder exactly the one call that grants this
/// capability, and nothing else.
pub fn apply_capability(b: &mut wasmtime_wasi::WasiCtxBuilder, c: PluginCaps)
    ensures
        spec_builder_grants(*final(b)) == spec_builder_grants(*old(b)).insert(c),
{
    match c {
        PluginCaps::InheritArgs => builder_inherit_args(b),
        PluginCaps::InheritEnv => builder_inherit_env(b),
        PluginCaps::InheritStdin => builder_inherit_stdin(b),
        PluginCaps::InheritStdio => builder_inherit_stdio(b),
        PluginCaps::InheritStdout => builder_inherit_stdout(b),
        PluginCaps::InheritNetwork => builder_inherit_network(b),
        PluginCaps::AllowIpNameLookup => builder_allow_ip_name_lookup(b),
    }
}

/// Enables on the engine's builder exactly what the sandbox context
/// grants: one call per granted capability, none for a denied one.
/// Mounts carry filesystem handles the engine must open itself, so the
/// caller applies them from `SandboxContext::mounts`, mapping each grant
/// flag to the engine's matching permission bit.
pub fn apply_capabilities(b: &mut wasmtime_wasi::WasiCtxBuilder, ctx: &SandboxContext)
    ensures
        forall|c: PluginCaps|
            spec_builder_grants(*final(b)).contains(c) == (spec_builder_grants(
                *old(b),
            ).contains(c) || spec_granted(*ctx, c)),
{
    if ctx.inherit_args {
        builder_inherit_args(b);
    }
    if ctx.inherit_env {
        builder_inherit_env(b);
    }
    if ctx.inherit_stdin {
        builder_inherit_stdin(b);
    }
    if ctx.inherit_stdio {
        builder_inherit_stdio(b);
    }
    if ctx.inherit_stdout {
        builder_inherit_stdout(b);
    }
    if ctx.inherit_network {
        builder_inherit_network(b);
    }
    if ctx.allow_ip_name_lookup {
        builder_allow_ip_name_lookup(b);
    }
}

/// A fresh engine context builder enabling exactly the sandbox context's
/// grants: the verified end of the chain from descriptor to engine.  The
/// caller still opens the context's mounts on it and builds.
pub fn grant_engine_context(ctx: &SandboxContext) -> (b: wasmtime_wasi::WasiCtxBuilder)
    ensures
        forall|c: PluginCaps| spec_builder_grants(b).contains(c) == spec_granted(*ctx, c),
{
    let mut b = new_engine_ctx_builder();
    apply_capabilities(&mut b, ctx);
    b
}

} // verus!

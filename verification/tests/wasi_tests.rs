use skycrane::caps::PluginCaps;
use skycrane::sandbox::SandboxContext;
use skycrane::wasi::{apply_capabilities, apply_capability, grant_engine_context,
    new_engine_ctx_builder};

#[test]
fn granted_capabilities_apply_to_the_engine_builder() {
    let mut ctx = SandboxContext::new();
    ctx.enable(PluginCaps::InheritStdout);
    ctx.enable(PluginCaps::AllowIpNameLookup);
    let mut builder = new_engine_ctx_builder();
    apply_capabilities(&mut builder, &ctx);
    let _wasi = builder.build();
}

#[test]
fn a_denied_context_applies_no_grants() {
    let ctx = SandboxContext::new();
    let mut builder = grant_engine_context(&ctx);
    let _wasi = builder.build();
}

#[test]
fn every_capability_maps_to_a_builder_call() {
    let all = [
        PluginCaps::InheritArgs,
        PluginCaps::InheritEnv,
        PluginCaps::InheritStdin,
        PluginCaps::InheritStdio,
        PluginCaps::InheritStdout,
        PluginCaps::InheritNetwork,
        PluginCaps::AllowIpNameLookup,
    ];
    for c in all {
        let mut builder = new_engine_ctx_builder();
        apply_capability(&mut builder, c);
        let _wasi = builder.build();
    }
}

#[test]
fn a_full_grant_table_reaches_the_engine_builder() {
    let mut ctx = SandboxContext::new();
    ctx.enable(PluginCaps::InheritArgs);
    ctx.enable(PluginCaps::InheritEnv);
    ctx.enable(PluginCaps::InheritStdin);
    ctx.enable(PluginCaps::InheritStdio);
    ctx.enable(PluginCaps::InheritStdout);
    ctx.enable(PluginCaps::InheritNetwork);
    ctx.enable(PluginCaps::AllowIpNameLookup);
    let mut builder = grant_engine_context(&ctx);
    let _wasi = builder.build();
}

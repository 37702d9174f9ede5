use skycrane::caps::PluginCaps;
use skycrane::descriptor::CloudModule;
use skycrane::eval::extract_plugin;
use skycrane::mounts::{DirPerms, FilePerms, PluginMount};
use skycrane::sandbox::{build_context, SandboxContext};

#[test]
fn baseline_denies_everything() {
    let ctx = SandboxContext::new();
    assert!(!ctx.inherit_args);
    assert!(!ctx.inherit_env);
    assert!(!ctx.inherit_stdin);
    assert!(!ctx.inherit_stdio);
    assert!(!ctx.inherit_stdout);
    assert!(!ctx.inherit_network);
    assert!(!ctx.allow_ip_name_lookup);
    assert!(ctx.mounts.is_empty());
}

#[test]
fn enabling_twice_equals_enabling_once() {
    let mut once = SandboxContext::new();
    once.enable(PluginCaps::InheritNetwork);
    let mut twice = SandboxContext::new();
    twice.enable(PluginCaps::InheritNetwork);
    twice.enable(PluginCaps::InheritNetwork);
    assert_eq!(once, twice);
}

#[test]
fn enabling_grants_only_the_named_capability() {
    let mut ctx = SandboxContext::new();
    ctx.enable(PluginCaps::InheritStdio);
    assert!(ctx.inherit_stdio);
    assert!(!ctx.inherit_stdin);
    assert!(!ctx.inherit_network);
    ctx.enable(PluginCaps::AllowIpNameLookup);
    assert!(ctx.inherit_stdio);
    assert!(ctx.allow_ip_name_lookup);
}

#[test]
fn context_carries_exactly_the_declared_grants() {
    let descriptor = CloudModule {
        name: "m".to_string(),
        version: "1".to_string(),
        capabilities: vec![PluginCaps::InheritEnv, PluginCaps::InheritNetwork],
        mounts: vec![PluginMount {
            host_path: "/data".to_string(),
            guest_path: "/sandbox".to_string(),
            file_perms: FilePerms { read: true, write: false },
            dir_perms: DirPerms { read: true, mutate: false },
        }],
    };
    let ctx = build_context(&descriptor);
    assert!(ctx.inherit_env);
    assert!(ctx.inherit_network);
    assert!(!ctx.inherit_args);
    assert!(!ctx.inherit_stdio);
    assert_eq!(ctx.mounts, descriptor.mounts);
}

#[test]
fn evaluated_descriptor_builds_its_context() {
    let config = r#"module("m", "1", capabilities(inherits=["InheritStdio","InheritStdio"], mounts=[]))"#;
    let m = extract_plugin(config).unwrap();
    let ctx = build_context(&m);
    assert!(ctx.inherit_stdio);
    assert!(!ctx.inherit_stdout);
    assert!(ctx.mounts.is_empty());
}

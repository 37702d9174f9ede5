use skycrane::caps::PluginCaps;
use skycrane::errors::ConfigError;
use skycrane::eval::extract_plugin;

#[test]
fn evaluates_module_with_capabilities() {
    let config = r#"module("aws-ec2", "1.0", capabilities(inherits=["InheritEnv","InheritStdio"], mounts=[]))"#;
    let m = extract_plugin(config).unwrap();
    assert_eq!(m.name, "aws-ec2");
    assert_eq!(m.version, "1.0");
    assert_eq!(m.capabilities, vec![PluginCaps::InheritEnv, PluginCaps::InheritStdio]);
    assert!(m.mounts.is_empty());
}

#[test]
fn unknown_token_fails_whole_evaluation() {
    let config = r#"module("aws-ec2", "1.0", capabilities(inherits=["InheritFoo"], mounts=[]))"#;
    let err = extract_plugin(config).unwrap_err();
    assert_eq!(err, ConfigError::UnknownCapability("InheritFoo".to_string()));
}

#[test]
fn no_module_call_is_an_error() {
    assert_eq!(extract_plugin("").unwrap_err(), ConfigError::NoModuleDeclaration);
    assert_eq!(
        extract_plugin(r#"mount("/a", "/b")"#).unwrap_err(),
        ConfigError::NoModuleDeclaration
    );
}

#[test]
fn malformed_source_is_a_parse_error() {
    assert_eq!(extract_plugin("%%%").unwrap_err(), ConfigError::Parse);
    assert_eq!(extract_plugin("module(").unwrap_err(), ConfigError::Parse);
    assert_eq!(extract_plugin(r#"module("a")"#).unwrap_err(), ConfigError::Parse);
    assert_eq!(extract_plugin(r#"module("", "1.0")"#).unwrap_err(), ConfigError::Parse);
    assert_eq!(extract_plugin(r#"frobnicate("a", "b")"#).unwrap_err(), ConfigError::Parse);
    assert_eq!(extract_plugin(r#"module("a" "b")"#).unwrap_err(), ConfigError::Parse);
}

#[test]
fn last_statement_must_be_the_module() {
    let config = r#"
module("aws-ec2", "1.0")
mount("/a", "/b")
"#;
    assert_eq!(extract_plugin(config).unwrap_err(), ConfigError::Downcast);
}

#[test]
fn later_module_declaration_wins() {
    let config = "module(\"first\", \"1\")\nmodule(\"second\", \"2\")";
    let m = extract_plugin(config).unwrap();
    assert_eq!(m.name, "second");
    assert_eq!(m.version, "2");
}

#[test]
fn keyword_arguments_and_comments_are_accepted() {
    let config = r#"
# declares the ec2 provider
module(
    name = "aws-ec2",   # identity
    version = "2.3",
    capabilities = capabilities(inherits = [INHERIT_ENV, "InheritStdout"], mounts = []),
)
"#;
    let m = extract_plugin(config).unwrap();
    assert_eq!(m.name, "aws-ec2");
    assert_eq!(m.version, "2.3");
    assert_eq!(m.capabilities, vec![PluginCaps::InheritEnv, PluginCaps::InheritStdout]);
}

#[test]
fn duplicate_capabilities_collapse() {
    let config = r#"module("m", "1", capabilities(inherits=["InheritEnv","InheritEnv","InheritArgs","InheritEnv"], mounts=[]))"#;
    let m = extract_plugin(config).unwrap();
    assert_eq!(m.capabilities, vec![PluginCaps::InheritEnv, PluginCaps::InheritArgs]);
}

#[test]
fn mounts_carry_their_exact_permissions() {
    let config = r#"
module("m", "1", capabilities(
    inherits = [],
    mounts = [mount("/data", "/sandbox/data", file_perms(read=True), dir_perms(read=True, mutate=False))],
), mounts = [mount("/logs", "/sandbox/logs")])
"#;
    let m = extract_plugin(config).unwrap();
    assert_eq!(m.mounts.len(), 2);
    assert_eq!(m.mounts[0].host_path, "/data");
    assert_eq!(m.mounts[0].guest_path, "/sandbox/data");
    assert!(m.mounts[0].file_perms.read);
    assert!(!m.mounts[0].file_perms.write);
    assert!(m.mounts[0].dir_perms.read);
    assert!(!m.mounts[0].dir_perms.mutate);
    assert_eq!(m.mounts[1].host_path, "/logs");
    assert!(!m.mounts[1].file_perms.read);
    assert!(!m.mounts[1].dir_perms.read);
}

#[test]
fn empty_mount_path_cannot_be_interpreted() {
    let config = r#"module("m", "1", mounts=[mount("", "/guest")])"#;
    assert_eq!(extract_plugin(config).unwrap_err(), ConfigError::MountInterpretation);
}

#[test]
fn wrong_shaped_permission_value_cannot_be_interpreted() {
    let config = r#"module("m", "1", mounts=[mount("/a", "/b", "rw")])"#;
    assert_eq!(extract_plugin(config).unwrap_err(), ConfigError::MountInterpretation);
    let config = r#"module("m", "1", mounts=[mount("/a", "/b", file_perms=dir_perms(read=True))])"#;
    assert_eq!(extract_plugin(config).unwrap_err(), ConfigError::MountInterpretation);
}

#[test]
fn mount_list_rejects_non_mount_elements() {
    let config = r#"module("m", "1", mounts=["/a"])"#;
    assert_eq!(extract_plugin(config).unwrap_err(), ConfigError::MountInterpretation);
}

#[test]
fn duplicate_keyword_argument_is_rejected() {
    let config = r#"module("m", "1", name="n")"#;
    assert_eq!(extract_plugin(config).unwrap_err(), ConfigError::Parse);
}

#[test]
fn positional_after_keyword_is_rejected() {
    let config = r#"module(name="m", "1")"#;
    assert_eq!(extract_plugin(config).unwrap_err(), ConfigError::Parse);
}

#[test]
fn trailing_commas_are_accepted() {
    let config = r#"module("m", "1", capabilities(inherits=["InheritArgs",], mounts=[],),)"#;
    let m = extract_plugin(config).unwrap();
    assert_eq!(m.capabilities, vec![PluginCaps::InheritArgs]);
}

#[test]
fn unterminated_string_is_a_parse_error() {
    assert_eq!(extract_plugin("module(\"a").unwrap_err(), ConfigError::Parse);
}

#[test]
fn whitespace_variants_are_accepted() {
    let config = "\tmodule(\r\n  \"m\"\t,\n  \"1\"\n)\n";
    let m = extract_plugin(config).unwrap();
    assert_eq!(m.name, "m");
    assert_eq!(m.version, "1");
    assert!(m.capabilities.is_empty());
    assert!(m.mounts.is_empty());
}

#[test]
fn module_level_mounts_keep_declaration_order() {
    let config = r#"module("m", "1", mounts=[mount("/a", "/ga"), mount("/b", "/gb")])"#;
    let m = extract_plugin(config).unwrap();
    assert_eq!(m.mounts.len(), 2);
    assert_eq!(m.mounts[0].host_path, "/a");
    assert_eq!(m.mounts[1].host_path, "/b");
}

#[test]
fn capability_constants_equal_their_token_strings() {
    let by_const = extract_plugin(
        r#"module("m", "1", capabilities(inherits=[INHERIT_NETWORK, ALLOW_IP_NAME_LOOKUP], mounts=[]))"#,
    )
    .unwrap();
    let by_string = extract_plugin(
        r#"module("m", "1", capabilities(inherits=["InheritNetwork", "AllowIpNameLookup"], mounts=[]))"#,
    )
    .unwrap();
    assert_eq!(by_const, by_string);
}

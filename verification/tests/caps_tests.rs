use skycrane::caps::{cap_token, parse_capability, PluginCaps};
use skycrane::errors::ConfigError;
use skycrane::mounts::parse_mount;

#[test]
fn capability_vocabulary_parses() {
    assert_eq!(parse_capability("InheritArgs").unwrap(), PluginCaps::InheritArgs);
    assert_eq!(parse_capability("InheritEnv").unwrap(), PluginCaps::InheritEnv);
    assert_eq!(parse_capability("InheritStdin").unwrap(), PluginCaps::InheritStdin);
    assert_eq!(parse_capability("InheritStdio").unwrap(), PluginCaps::InheritStdio);
    assert_eq!(parse_capability("InheritStdout").unwrap(), PluginCaps::InheritStdout);
    assert_eq!(parse_capability("InheritNetwork").unwrap(), PluginCaps::InheritNetwork);
    assert_eq!(parse_capability("AllowIpNameLookup").unwrap(), PluginCaps::AllowIpNameLookup);
}

#[test]
fn capability_tokens_round_trip() {
    let all = [
        PluginCaps::InheritArgs,
        PluginCaps::InheritEnv,
        PluginCaps::InheritStdin,
        PluginCaps::InheritStdio,
        PluginCaps::InheritStdout,
        PluginCaps::InheritNetwork,
        PluginCaps::AllowIpNameLookup,
    ];
    for c in all {
        let token = cap_token(&c);
        assert_eq!(parse_capability(token.as_str()).unwrap(), c);
    }
}

#[test]
fn unknown_capability_is_rejected_with_its_token() {
    let err = parse_capability("InheritFoo").unwrap_err();
    assert_eq!(err, ConfigError::UnknownCapability("InheritFoo".to_string()));
    assert!(parse_capability("inheritenv").is_err());
    assert!(parse_capability("").is_err());
}

#[test]
fn mount_defaults_deny_everything() {
    let m = parse_mount("/host".to_string(), "/guest".to_string(), None, None).unwrap();
    assert!(!m.file_perms.read);
    assert!(!m.file_perms.write);
    assert!(!m.dir_perms.read);
    assert!(!m.dir_perms.mutate);
    assert_eq!(m.host_path, "/host");
    assert_eq!(m.guest_path, "/guest");
}

#[test]
fn mount_requires_non_empty_paths() {
    let err = parse_mount("".to_string(), "/guest".to_string(), None, None).unwrap_err();
    assert_eq!(err, ConfigError::MountInterpretation);
    let err = parse_mount("/host".to_string(), "".to_string(), None, None).unwrap_err();
    assert_eq!(err, ConfigError::MountInterpretation);
}

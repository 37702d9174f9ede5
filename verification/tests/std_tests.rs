use once_cell::sync::OnceCell;
use skycrane::caps::parse_inherits;
use skycrane::errors::ConfigError;
use skycrane::mounts::{extract_dir_perms, extract_file_perms, DirPerms, FilePerms};

fn setup() {}

#[test]
fn system_test_load_plugins() {
    let init: OnceCell<()> = OnceCell::new();
    init.get_or_try_init(|| -> Result<(), ConfigError> {
        setup();
        Ok(())
    })
    .unwrap();
}

#[test]
fn test_iterate_over_inherits() {
    let inherits = vec![
        "InheritArgs".to_string(),
        "InheritStdin".to_string(),
        "InheritStdio".to_string(),
        "InheritStdout".to_string(),
        "InheritEnv".to_string(),
        "InheritNetwork".to_string(),
        "AllowIpNameLookup".to_string(),
    ];
    let result = parse_inherits(&inherits).unwrap();
    assert_eq!(result.len(), 7);
}

#[test]
fn test_invalid_inherit() {
    let inherits = vec!["invalid".to_string()];
    let result = parse_inherits(&inherits);
    assert!(result.is_err());
}

#[test]
fn test_extract_file_perms() {
    let perms = FilePerms { read: true, write: true };
    let result = extract_file_perms(Some(perms));
    assert!(result.read);
    assert!(result.write);
}

#[test]
fn test_extract_file_perms_default_denies() {
    let result = extract_file_perms(None);
    assert_eq!(result, FilePerms { read: false, write: false });
}

#[test]
fn test_extract_dir_perms_default_denies() {
    let result = extract_dir_perms(None);
    assert_eq!(result, DirPerms { read: false, mutate: false });
}

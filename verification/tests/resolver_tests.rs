use skycrane::errors::PluginError;
use skycrane::resolver::resolve_plugin;
use skycrane::sources::{concat_sources, is_config_file_name};

#[test]
fn empty_directory_has_no_plugin() {
    let entries: Vec<String> = vec![];
    let err = resolve_plugin(&entries, "plugins", "aws-ec2", "1.0").unwrap_err();
    assert_eq!(err, PluginError::NotFound("aws-ec2".to_string()));
}

#[test]
fn no_matching_entry_has_no_plugin() {
    let entries = vec!["gcp.wasm".to_string(), "aws-ec2.txt".to_string(), "readme".to_string()];
    let err = resolve_plugin(&entries, "plugins", "aws-ec2", "1.0").unwrap_err();
    assert_eq!(err, PluginError::NotFound("aws-ec2".to_string()));
}

#[test]
fn one_matching_entry_resolves_to_its_path() {
    let entries = vec!["gcp.wasm".to_string(), "aws-ec2.wasm".to_string()];
    let a = resolve_plugin(&entries, "plugins", "aws-ec2", "1.0").unwrap();
    assert_eq!(a.name, "aws-ec2.wasm");
    assert_eq!(a.path, "plugins/aws-ec2.wasm");
}

#[test]
fn versioned_artifact_name_matches() {
    let entries = vec!["aws-ec2-1.0.wasm".to_string()];
    let a = resolve_plugin(&entries, "/opt/plugins", "aws-ec2", "1.0").unwrap();
    assert_eq!(a.name, "aws-ec2-1.0.wasm");
    assert_eq!(a.path, "/opt/plugins/aws-ec2-1.0.wasm");
}

#[test]
fn substring_names_do_not_match() {
    let entries = vec!["aws-ec2-gov-cloud.wasm".to_string()];
    let err = resolve_plugin(&entries, "plugins", "aws-ec2", "1.0").unwrap_err();
    assert_eq!(err, PluginError::NotFound("aws-ec2".to_string()));
}

#[test]
fn two_matching_entries_are_ambiguous() {
    let entries = vec!["aws-ec2.wasm".to_string(), "aws-ec2-1.0.wasm".to_string()];
    let err = resolve_plugin(&entries, "plugins", "aws-ec2", "1.0").unwrap_err();
    assert_eq!(err, PluginError::Ambiguous("aws-ec2".to_string()));
}

#[test]
fn config_files_are_recognized_by_extension() {
    assert!(is_config_file_name("base.star"));
    assert!(is_config_file_name(".star"));
    assert!(!is_config_file_name("base.star.bak"));
    assert!(!is_config_file_name("starfile"));
    assert!(!is_config_file_name(""));
}

#[test]
fn sources_concatenate_in_order() {
    let sources = vec!["a = 1\n".to_string(), "".to_string(), "module(\"m\", \"1\")".to_string()];
    assert_eq!(concat_sources(&sources), "a = 1\nmodule(\"m\", \"1\")");
    let none: Vec<String> = vec![];
    assert_eq!(concat_sources(&none), "");
}

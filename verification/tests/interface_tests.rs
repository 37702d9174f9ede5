use skycrane::errors::{SchemaError, ValidationError};
use skycrane::interface::{
    resolve_type_tag, validate_interface, ExportedFunction, FunctionSignature, HostType,
    InterfaceSchema, SchemaSlot,
};

fn run_schema() -> InterfaceSchema {
    InterfaceSchema {
        functions: vec![FunctionSignature {
            name: "run".to_string(),
            params: vec!["pointer".to_string()],
            returns: None,
        }],
    }
}

#[test]
fn type_tags_resolve_to_host_types() {
    assert_eq!(resolve_type_tag("pointer").unwrap(), HostType::PointerSized);
    assert_eq!(resolve_type_tag("i32").unwrap(), HostType::Int32);
    assert_eq!(resolve_type_tag("i64").unwrap(), HostType::Int64);
    assert_eq!(
        resolve_type_tag("f32").unwrap_err(),
        ValidationError::SchemaTypeMapping("f32".to_string())
    );
}

#[test]
fn matching_surface_validates() {
    let exports = vec![ExportedFunction {
        name: "run".to_string(),
        params: vec![HostType::PointerSized],
        results: vec![],
    }];
    assert!(validate_interface(&run_schema(), &exports).is_ok());
}

#[test]
fn extra_parameter_is_a_mismatch_naming_the_function() {
    let exports = vec![ExportedFunction {
        name: "run".to_string(),
        params: vec![HostType::PointerSized, HostType::PointerSized],
        results: vec![],
    }];
    let err = validate_interface(&run_schema(), &exports).unwrap_err();
    assert_eq!(
        err,
        ValidationError::ParameterTypeMismatch { function: "run".to_string(), index: 1 }
    );
}

#[test]
fn wrong_parameter_type_is_a_mismatch_at_its_position() {
    let exports = vec![ExportedFunction {
        name: "run".to_string(),
        params: vec![HostType::Int32],
        results: vec![],
    }];
    let err = validate_interface(&run_schema(), &exports).unwrap_err();
    assert_eq!(
        err,
        ValidationError::ParameterTypeMismatch { function: "run".to_string(), index: 0 }
    );
}

#[test]
fn missing_export_names_the_function() {
    let exports = vec![ExportedFunction {
        name: "start".to_string(),
        params: vec![HostType::PointerSized],
        results: vec![],
    }];
    let err = validate_interface(&run_schema(), &exports).unwrap_err();
    assert_eq!(err, ValidationError::MissingExport("run".to_string()));
}

#[test]
fn unexpected_return_value_is_a_return_mismatch() {
    let exports = vec![ExportedFunction {
        name: "run".to_string(),
        params: vec![HostType::PointerSized],
        results: vec![HostType::Int32],
    }];
    let err = validate_interface(&run_schema(), &exports).unwrap_err();
    assert_eq!(err, ValidationError::ReturnTypeMismatch("run".to_string()));
}

#[test]
fn declared_return_value_must_match_exactly() {
    let schema = InterfaceSchema {
        functions: vec![FunctionSignature {
            name: "size".to_string(),
            params: vec![],
            returns: Some("i64".to_string()),
        }],
    };
    let good = vec![ExportedFunction {
        name: "size".to_string(),
        params: vec![],
        results: vec![HostType::Int64],
    }];
    assert!(validate_interface(&schema, &good).is_ok());
    let bad = vec![ExportedFunction {
        name: "size".to_string(),
        params: vec![],
        results: vec![HostType::Int32],
    }];
    assert_eq!(
        validate_interface(&schema, &bad).unwrap_err(),
        ValidationError::ReturnTypeMismatch("size".to_string())
    );
}

#[test]
fn unresolvable_schema_tag_is_its_own_error() {
    let schema = InterfaceSchema {
        functions: vec![FunctionSignature {
            name: "run".to_string(),
            params: vec!["quaternion".to_string()],
            returns: None,
        }],
    };
    let exports = vec![ExportedFunction {
        name: "run".to_string(),
        params: vec![HostType::PointerSized],
        results: vec![],
    }];
    assert_eq!(
        validate_interface(&schema, &exports).unwrap_err(),
        ValidationError::SchemaTypeMapping("quaternion".to_string())
    );
}

#[test]
fn schema_slot_is_set_once_and_keeps_the_first_value() {
    let mut slot = SchemaSlot::new();
    assert_eq!(slot.get().unwrap_err(), SchemaError::NotSet);
    slot.set(run_schema()).unwrap();
    let second = InterfaceSchema { functions: vec![] };
    assert_eq!(slot.set(second).unwrap_err(), SchemaError::AlreadySet);
    let stored = slot.get().unwrap();
    assert_eq!(stored.functions.len(), 1);
    assert_eq!(stored.functions[0].name, "run");
}

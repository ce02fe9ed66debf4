//! Unit tests of the schema-driven validator.

use robert_webdriver::{
    CdpValidator, ErrorLocation, ValidationError, ValidationErrorType, ValidationResult,
};

#[test]
fn test_valid_script() {
    let validator = CdpValidator::new();
    let json = r#"{
        "name": "test-script",
        "description": "Test script",
        "cdp_commands": [
            {
                "method": "Page.navigate",
                "params": {"url": "https://example.com"}
            }
        ]
    }"#;

    let result = validator.validate_json(json);
    assert!(result.is_valid, "Valid script should pass validation");
    assert!(result.errors.is_empty(), "Should have no errors");
}

#[test]
fn test_json_syntax_error() {
    let validator = CdpValidator::new();
    let json = r#"{"name": "test", "description": "test"#; // Missing closing brace

    let result = validator.validate_json(json);
    assert!(!result.is_valid);
    assert_eq!(result.errors.len(), 1);
    assert_eq!(result.errors[0].error_type, ValidationErrorType::JsonSyntax);
}

#[test]
fn test_missing_script_name() {
    let validator = CdpValidator::new();
    let json = r#"{
        "name": "",
        "description": "Test",
        "cdp_commands": [
            {"method": "Page.navigate", "params": {"url": "https://example.com"}}
        ]
    }"#;

    let result = validator.validate_json(json);
    assert!(!result.is_valid);
    assert!(result
        .errors
        .iter()
        .any(|e| e.error_type == ValidationErrorType::MissingField
            && e.location.field_path == "name"));
}

#[test]
fn test_unknown_command() {
    let validator = CdpValidator::new();
    let json = r#"{
        "name": "test",
        "description": "Test",
        "cdp_commands": [
            {"method": "Unknown.command", "params": {}}
        ]
    }"#;

    let result = validator.validate_json(json);
    assert!(!result.is_valid);
    assert!(result
        .errors
        .iter()
        .any(|e| e.error_type == ValidationErrorType::UnknownCommand));
}

#[test]
fn test_invalid_method_format() {
    let validator = CdpValidator::new();
    let json = r#"{
        "name": "test",
        "description": "Test",
        "cdp_commands": [
            {"method": "InvalidFormat", "params": {}}
        ]
    }"#;

    let result = validator.validate_json(json);
    assert!(!result.is_valid);
    assert!(result
        .errors
        .iter()
        .any(|e| e.error_type == ValidationErrorType::InvalidValue));
}

#[test]
fn test_missing_required_parameter() {
    let validator = CdpValidator::new();
    let json = r#"{
        "name": "test",
        "description": "Test",
        "cdp_commands": [
            {"method": "Page.navigate", "params": {}}
        ]
    }"#;

    let result = validator.validate_json(json);
    assert!(!result.is_valid);
    assert!(result
        .errors
        .iter()
        .any(|e| e.error_type == ValidationErrorType::MissingParameter
            && e.message.contains("url")));
}

#[test]
fn test_wrong_parameter_type() {
    let validator = CdpValidator::new();
    let json = r#"{
        "name": "test",
        "description": "Test",
        "cdp_commands": [
            {"method": "Page.navigate", "params": {"url": 123}}
        ]
    }"#;

    let result = validator.validate_json(json);
    assert!(!result.is_valid);
    assert!(result
        .errors
        .iter()
        .any(|e| e.error_type == ValidationErrorType::TypeMismatch));
}

#[test]
fn test_empty_commands() {
    let validator = CdpValidator::new();
    let json = r#"{
        "name": "test",
        "description": "Test",
        "cdp_commands": []
    }"#;

    let result = validator.validate_json(json);
    assert!(!result.is_valid);
    assert!(result
        .errors
        .iter()
        .any(|e| e.error_type == ValidationErrorType::MissingField
            && e.location.field_path == "cdp_commands"));
}

#[test]
fn test_multiple_errors() {
    let validator = CdpValidator::new();
    let json = r#"{
        "name": "",
        "description": "",
        "cdp_commands": [
            {"method": "Invalid", "params": {}},
            {"method": "Page.navigate", "params": {}},
            {"method": "Unknown.command", "params": {}}
        ]
    }"#;

    let result = validator.validate_json(json);
    assert!(!result.is_valid);
    assert!(result.errors.len() >= 3, "Should catch multiple errors");
}

#[test]
fn test_null_parameter_never_mismatches() {
    let validator = CdpValidator::new();
    let json = r#"{
        "name": "test",
        "description": "Test",
        "cdp_commands": [
            {"method": "Page.navigate", "params": {"url": "http://x", "referrer": null}}
        ]
    }"#;

    let result = validator.validate_json(json);
    assert!(result.is_valid, "null for a declared parameter is accepted");
    assert!(result
        .errors
        .iter()
        .all(|e| e.error_type != ValidationErrorType::TypeMismatch));
}

#[test]
fn test_multiple_missing_parameters_all_reported() {
    let validator = CdpValidator::new();
    let json = r#"{
        "name": "test",
        "description": "Test",
        "cdp_commands": [
            {"method": "Input.dispatchMouseEvent", "params": {}}
        ]
    }"#;

    let result = validator.validate_json(json);
    assert!(!result.is_valid);
    let missing: Vec<_> = result
        .errors
        .iter()
        .filter(|e| e.error_type == ValidationErrorType::MissingParameter)
        .collect();
    assert_eq!(missing.len(), 3, "type, x and y are each reported");
}

#[test]
fn test_scenario_single_unknown_command() {
    let validator = CdpValidator::new();
    let json = r#"{
        "name": "t",
        "description": "d",
        "cdp_commands": [
            {"method": "Foo.bar", "params": {}}
        ]
    }"#;

    let result = validator.validate_json(json);
    assert!(!result.is_valid);
    assert_eq!(result.errors.len(), 1);
    assert_eq!(result.errors[0].error_type, ValidationErrorType::UnknownCommand);
    assert_eq!(result.errors[0].location.command_index, Some(0));
}

#[test]
fn test_registry_accessors() {
    let validator = CdpValidator::new();
    let methods = validator.known_methods();
    assert_eq!(methods.len(), 15);
    assert!(methods.iter().any(|m| m == "Page.navigate"));
    assert!(methods.iter().any(|m| m == "Emulation.clearGeolocationOverride"));

    let schema = validator.lookup("Page.navigate").expect("schema exists");
    assert_eq!(schema.required_params, vec!["url".to_string()]);
    // Known to the registry, but with no parameter schema declared.
    assert!(validator.lookup("Page.reload").is_none());
    assert!(validator.lookup("Nope.nope").is_none());
}

#[test]
fn test_params_not_object_reports_invalid_structure() {
    let validator = CdpValidator::new();
    let json = r#"{
        "name": "test",
        "description": "Test",
        "cdp_commands": [
            {"method": "Page.navigate", "params": [1, 2, 3]}
        ]
    }"#;

    let result = validator.validate_json(json);
    assert!(!result.is_valid);
    assert_eq!(result.errors.len(), 1);
    assert_eq!(
        result.errors[0].error_type,
        ValidationErrorType::InvalidStructure
    );
    assert!(result.errors[0].message.contains("params must be an object"));
}

#[test]
fn test_params_not_object_without_required_params_passes() {
    let validator = CdpValidator::new();
    let json = r#"{
        "name": "test",
        "description": "Test",
        "cdp_commands": [
            {"method": "Page.captureScreenshot", "params": null}
        ]
    }"#;

    let result = validator.validate_json(json);
    assert!(result.is_valid, "no required parameters, so nothing to check");
}

#[test]
fn test_failure_verdict_tracks_error_list() {
    // No errors: the result is valid, as the verdict is defined by the
    // error list alone.
    let empty = ValidationResult::failure(vec![]);
    assert!(empty.is_valid);
    assert!(empty.errors.is_empty());
    assert!(empty.warnings.is_empty());

    // One error: the result is invalid.
    let one = ValidationResult::failure(vec![ValidationError {
        error_type: ValidationErrorType::MissingField,
        message: "Script name is required and cannot be empty".to_string(),
        location: ErrorLocation {
            command_index: None,
            field_path: "name".to_string(),
            line: None,
            column: None,
        },
        suggestion: None,
    }]);
    assert!(!one.is_valid);
    assert_eq!(one.errors.len(), 1);
}

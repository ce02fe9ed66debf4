//! Tests of reply cleaning, prompt building, and acceptance of generator
//! replies.

use robert_webdriver::{generate_cdp_script_prompt, validate_generated_script, CdpScriptGenerator};

#[test]
fn test_clean_response() {
    let gen = CdpScriptGenerator::new();

    // With a Markdown fence.
    let response = "```json\n{\"name\": \"test\"}\n```";
    let cleaned = gen.clean_response(response);
    assert_eq!(cleaned, "{\"name\": \"test\"}");

    // Without a fence.
    let response = "{\"name\": \"test\"}";
    let cleaned = gen.clean_response(response);
    assert_eq!(cleaned, "{\"name\": \"test\"}");
}

#[test]
fn test_clean_response_plain_fence() {
    let gen = CdpScriptGenerator::new();
    let cleaned = gen.clean_response("```\n{\"a\": 1}\n```");
    assert_eq!(cleaned, "{\"a\": 1}");
}

#[test]
fn test_clean_response_unterminated_fence() {
    let gen = CdpScriptGenerator::new();
    // A fence that never closes is left as the trimmed text.
    let cleaned = gen.clean_response("```json\n{\"a\": 1}");
    assert_eq!(cleaned, "```json\n{\"a\": 1}");
}

#[test]
fn test_generator_configuration() {
    let gen = CdpScriptGenerator::new()
        .with_cli_path("/usr/bin/agent".to_string())
        .with_model("sonnet".to_string());
    assert_eq!(gen.cli_path(), "/usr/bin/agent");
    assert_eq!(gen.model().as_deref(), Some("sonnet"));
}

#[test]
fn test_generate_prompt() {
    let prompt = generate_cdp_script_prompt("Take a screenshot of google.com");
    assert!(prompt.contains("USER REQUEST"));
    assert!(prompt.contains("Page.navigate"));
    assert!(prompt.contains("Page.captureScreenshot"));
}

#[test]
fn test_validate_valid_script() {
    let json = r#"{
        "name": "test",
        "description": "Test script",
        "cdp_commands": [
            {
                "method": "Page.navigate",
                "params": {"url": "https://example.com"}
            }
        ]
    }"#;

    let result = validate_generated_script(json);
    assert!(result.is_ok());
}

#[test]
fn test_validate_invalid_method() {
    let json = r#"{
        "name": "test",
        "description": "Test script",
        "cdp_commands": [
            {
                "method": "Invalid.method",
                "params": {}
            }
        ]
    }"#;

    let result = validate_generated_script(json);
    assert!(result.is_err());
    assert!(result.unwrap_err().contains("Unknown CDP command"));
}

#[test]
fn test_script_validation_valid() {
    let valid_json = r#"{
        "name": "test-script",
        "description": "Test script",
        "cdp_commands": [
            {
                "method": "Page.navigate",
                "params": {"url": "https://example.com"}
            }
        ]
    }"#;

    let result = validate_generated_script(valid_json);
    assert!(result.is_ok(), "Valid script should pass validation");
}

#[test]
fn test_script_validation_unknown_command() {
    let invalid_json = r#"{
        "name": "test",
        "description": "Test script",
        "cdp_commands": [
            {
                "method": "Unknown.command",
                "params": {}
            }
        ]
    }"#;

    let result = validate_generated_script(invalid_json);
    assert!(result.is_err(), "Unknown command should fail validation");

    let error = result.unwrap_err();
    assert!(
        error.to_string().contains("unknown") || error.to_string().contains("Unknown"),
        "Error should mention unknown command"
    );
}

#[test]
fn test_script_validation_malformed_json() {
    let malformed_json = r#"{
        "name": "test",
        "cdp_commands": [
            {
                "method": "Page.navigate"
                // Missing comma
                "params": {}
            }
        ]
    }"#;

    let result = validate_generated_script(malformed_json);
    assert!(result.is_err(), "Malformed JSON should fail validation");
}

#[test]
fn test_script_validation_missing_required_fields() {
    let missing_fields_json = r#"{
        "name": "test",
        "cdp_commands": [
            {
                "method": "Page.navigate"
            }
        ]
    }"#;

    let result = validate_generated_script(missing_fields_json);
    assert!(
        result.is_err(),
        "Missing required params should fail validation"
    );
}

#[test]
fn test_script_validation_multiple_commands() {
    let multi_command_json = r#"{
        "name": "multi-command-test",
        "description": "Test multiple commands",
        "cdp_commands": [
            {
                "method": "Page.navigate",
                "params": {"url": "https://example.com"}
            },
            {
                "method": "Runtime.evaluate",
                "params": {
                    "expression": "document.title",
                    "returnByValue": true
                }
            },
            {
                "method": "Page.captureScreenshot",
                "params": {}
            }
        ]
    }"#;

    let result = validate_generated_script(multi_command_json);
    assert!(
        result.is_ok(),
        "Multiple valid commands should pass validation"
    );
}

#[test]
fn test_script_validation_with_save_as() {
    let json_with_save = r#"{
        "name": "save-test",
        "description": "Test save_as functionality",
        "cdp_commands": [
            {
                "method": "Page.navigate",
                "params": {"url": "https://example.com"}
            },
            {
                "method": "Runtime.evaluate",
                "params": {
                    "expression": "document.title",
                    "returnByValue": true
                },
                "save_as": "output.json"
            }
        ]
    }"#;

    let result = validate_generated_script(json_with_save);
    assert!(result.is_ok(), "Script with save_as should pass validation");
}

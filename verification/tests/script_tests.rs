//! Tests of the script model, the execution report, and the JSON codec.

use robert_webdriver::{
    script_from_json, script_to_json, CdpCommand, CdpScript, CommandResult, CommandStatus,
    ExecutionReport, JsonValue,
};

fn navigate_command(url: &str) -> CdpCommand {
    CdpCommand {
        method: "Page.navigate".to_string(),
        params: JsonValue::Obj(vec![(
            "url".to_string(),
            JsonValue::Str(url.to_string()),
        )]),
        save_as: None,
        description: None,
    }
}

#[test]
fn test_script_validation() {
    let mut script = CdpScript {
        name: "test".to_string(),
        description: "Test script".to_string(),
        created: None,
        author: None,
        tags: vec![],
        cdp_commands: vec![],
    };

    // Empty commands should fail
    assert!(script.validate().is_err());

    // Add valid command
    script.cdp_commands.push(navigate_command("https://example.com"));

    assert!(script.validate().is_ok());

    // Invalid method format should fail
    script.cdp_commands.push(CdpCommand {
        method: "InvalidMethod".to_string(),
        params: JsonValue::Obj(vec![]),
        save_as: None,
        description: None,
    });

    assert!(script.validate().is_err());
}

#[test]
fn test_execution_report() {
    let mut report = ExecutionReport::new("test".to_string(), 3);

    report.add_result(CommandResult {
        step: 1,
        method: "Page.navigate".to_string(),
        status: CommandStatus::Success,
        duration_ms: 100,
        response: None,
        error: None,
        saved_file: None,
    });

    report.add_result(CommandResult {
        step: 2,
        method: "Runtime.evaluate".to_string(),
        status: CommandStatus::Failed,
        duration_ms: 50,
        response: None,
        error: Some("Error".to_string()),
        saved_file: None,
    });

    assert_eq!(report.successful, 1);
    assert_eq!(report.failed, 1);
    assert!(!report.is_success());
    assert_eq!(report.total_duration_ms, 150);

    // One success out of three commands: a whole-number percentage.
    assert_eq!(report.success_rate(), 33);
}

#[test]
fn test_success_rate_all_and_half() {
    let mut report = ExecutionReport::new("test".to_string(), 2);
    report.add_result(CommandResult {
        step: 1,
        method: "Page.navigate".to_string(),
        status: CommandStatus::Success,
        duration_ms: 5,
        response: None,
        error: None,
        saved_file: None,
    });
    assert_eq!(report.success_rate(), 50);
    report.add_result(CommandResult {
        step: 2,
        method: "Page.reload".to_string(),
        status: CommandStatus::Success,
        duration_ms: 5,
        response: None,
        error: None,
        saved_file: None,
    });
    assert_eq!(report.success_rate(), 100);
    assert!(report.is_success());
}

#[test]
fn test_success_rate_empty_script() {
    let report = ExecutionReport::new("empty".to_string(), 0);
    assert_eq!(report.success_rate(), 0);
}

#[test]
fn test_script_json_round_trip() {
    let script = CdpScript {
        name: "round-trip".to_string(),
        description: "A script that comes back unchanged".to_string(),
        created: None,
        author: Some("someone".to_string()),
        tags: vec!["a".to_string(), "b".to_string()],
        cdp_commands: vec![
            navigate_command("http://x"),
            CdpCommand {
                method: "Runtime.evaluate".to_string(),
                params: JsonValue::Obj(vec![
                    ("expression".to_string(), JsonValue::Str("1+1".to_string())),
                    ("returnByValue".to_string(), JsonValue::Bool(true)),
                ]),
                save_as: Some("out.json".to_string()),
                description: Some("evaluate".to_string()),
            },
        ],
    };

    let doc = script_to_json(&script);
    let back = script_from_json(&doc).expect("round trip should decode");
    assert_eq!(back.name, "round-trip");
    assert_eq!(back.description, "A script that comes back unchanged");
    assert_eq!(back.created, None);
    assert_eq!(back.author.as_deref(), Some("someone"));
    assert_eq!(back.tags, vec!["a".to_string(), "b".to_string()]);
    assert_eq!(back.cdp_commands.len(), 2);
    assert_eq!(back.cdp_commands[0].method, "Page.navigate");
    assert_eq!(back.cdp_commands[1].save_as.as_deref(), Some("out.json"));
    match &back.cdp_commands[1].params {
        JsonValue::Obj(entries) => {
            assert_eq!(entries.len(), 2);
            assert_eq!(entries[0].0, "expression");
            match &entries[1].1 {
                JsonValue::Bool(b) => assert!(*b),
                other => panic!("expected a boolean, got {:?}", other),
            }
        }
        other => panic!("expected an object, got {:?}", other),
    }
}

#[test]
fn test_script_json_omits_absent_fields() {
    let script = CdpScript {
        name: "sparse".to_string(),
        description: "d".to_string(),
        created: None,
        author: None,
        tags: vec![],
        cdp_commands: vec![navigate_command("http://x")],
    };
    let doc = script_to_json(&script);
    match &doc {
        JsonValue::Obj(entries) => {
            let keys: Vec<&str> = entries.iter().map(|e| e.0.as_str()).collect();
            assert_eq!(keys, vec!["name", "description", "cdp_commands"]);
        }
        other => panic!("expected an object, got {:?}", other),
    }
}

#[test]
fn test_structural_error_messages() {
    let mut script = CdpScript {
        name: String::new(),
        description: "d".to_string(),
        created: None,
        author: None,
        tags: vec![],
        cdp_commands: vec![navigate_command("http://x")],
    };
    assert_eq!(script.validate().unwrap_err(), "Script name cannot be empty");

    script.name = "ok".to_string();
    script.cdp_commands[0].method = String::new();
    assert_eq!(script.validate().unwrap_err(), "Command 1 has empty method");

    script.cdp_commands[0].method = "NoSeparator".to_string();
    assert_eq!(
        script.validate().unwrap_err(),
        "Command 1 has invalid method 'NoSeparator' (must be Domain.method format)"
    );
}

#[test]
fn test_command_json_omits_absent_fields() {
    let command = navigate_command("http://x");
    let script = CdpScript {
        name: "sparse-command".to_string(),
        description: "d".to_string(),
        created: None,
        author: None,
        tags: vec![],
        cdp_commands: vec![command],
    };
    let doc = script_to_json(&script);
    let JsonValue::Obj(entries) = &doc else {
        panic!("expected an object");
    };
    let JsonValue::Arr(commands) = &entries[2].1 else {
        panic!("expected the command array");
    };
    let JsonValue::Obj(cmd_entries) = &commands[0] else {
        panic!("expected a command object");
    };
    let keys: Vec<&str> = cmd_entries.iter().map(|e| e.0.as_str()).collect();
    assert_eq!(keys, vec!["method", "params"]);
}

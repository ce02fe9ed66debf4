//! Tests of the execution decision core: dispatch, report folding, and the
//! stop-on-first-failure behavior.

use robert_webdriver::executor::unsupported_method_error;
use robert_webdriver::{
    apply_outcomes, handler_for, method_has_handler, CdpCommand, CdpScript, HandlerKind,
    JsonValue, StepOutcome,
};

fn command(method: &str) -> CdpCommand {
    CdpCommand {
        method: method.to_string(),
        params: JsonValue::Obj(vec![]),
        save_as: None,
        description: None,
    }
}

fn script_of(name: &str, methods: &[&str]) -> CdpScript {
    CdpScript {
        name: name.to_string(),
        description: "test".to_string(),
        created: None,
        author: None,
        tags: vec![],
        cdp_commands: methods.iter().map(|m| command(m)).collect(),
    }
}

fn ok_outcome() -> StepOutcome {
    StepOutcome::Success { response: JsonValue::Obj(vec![]), saved_file: None }
}

#[test]
fn test_handler_dispatch() {
    assert_eq!(handler_for("Page.navigate"), Some(HandlerKind::PageNavigate));
    assert_eq!(handler_for("Runtime.evaluate"), Some(HandlerKind::RuntimeEvaluate));
    assert_eq!(handler_for("Network.getCookies"), Some(HandlerKind::NetworkGetCookies));
    assert_eq!(handler_for("Emulation.clearGeolocationOverride"), None);
    assert_eq!(handler_for("Invalid.thing"), None);
    assert!(method_has_handler("Input.insertText"));
    assert!(!method_has_handler("Foo.bar"));
}

#[test]
fn test_unsupported_method_message() {
    assert_eq!(
        unsupported_method_error("Foo.bar"),
        "Unsupported CDP method: Foo.bar"
    );
}

#[test]
fn test_successful_run_report() {
    // A working session: both commands succeed.
    let script = script_of("t", &["Page.navigate", "Runtime.evaluate"]);
    let outcomes = vec![(ok_outcome(), 12u64), (ok_outcome(), 8u64)];

    let report = apply_outcomes(&script, &outcomes).expect("valid script runs");
    assert!(report.is_success());
    assert_eq!(report.total_commands, 2);
    assert_eq!(report.successful, 2);
    assert_eq!(report.failed, 0);
    assert_eq!(report.skipped, 0);
    assert_eq!(report.total_duration_ms, 20);
    assert_eq!(report.results.len(), 2);
    assert_eq!(report.results[0].step, 1);
    assert_eq!(report.results[1].step, 2);
}

#[test]
fn test_run_stops_at_first_failure() {
    // Three commands; the second has no handler, so its step fails and the
    // third is never attempted.
    let script = script_of(
        "t",
        &["Page.navigate", "Invalid.thing", "Runtime.evaluate"],
    );
    assert!(!method_has_handler(&script.cdp_commands[1].method));
    let outcomes = vec![
        (ok_outcome(), 10u64),
        (
            StepOutcome::Failure {
                error: unsupported_method_error(&script.cdp_commands[1].method),
            },
            1u64,
        ),
    ];

    let report = apply_outcomes(&script, &outcomes).expect("valid script runs");
    assert_eq!(report.failed, 1);
    assert_eq!(report.successful, 1);
    assert_eq!(report.skipped, 0);
    assert_eq!(report.results.len(), 2);
    assert_eq!(
        report.results[1].error.as_deref(),
        Some("Unsupported CDP method: Invalid.thing")
    );
    assert!(!report.is_success());
}

#[test]
fn test_run_rejects_structurally_invalid_script() {
    let script = script_of("t", &[]);
    let outcomes: Vec<(StepOutcome, u64)> = vec![];
    let err = apply_outcomes(&script, &outcomes).unwrap_err();
    assert_eq!(err, "Script must contain at least one command");
}

#[test]
fn test_run_records_saved_file() {
    let script = script_of("t", &["Page.captureScreenshot"]);
    let outcomes = vec![(
        StepOutcome::Success {
            response: JsonValue::Obj(vec![(
                "data".to_string(),
                JsonValue::Str("AAAA".to_string()),
            )]),
            saved_file: Some("shot.png".to_string()),
        },
        30u64,
    )];
    let report = apply_outcomes(&script, &outcomes).unwrap();
    assert_eq!(report.results[0].saved_file.as_deref(), Some("shot.png"));
    assert_eq!(report.results[0].method, "Page.captureScreenshot");
}

//! Tests of the JSON parse boundary and the document tree.

use robert_webdriver::{parse_json, script_from_json, JsonValue};

#[test]
fn test_parse_json_object() {
    let doc = parse_json(r#"{"a": 1, "b": "x", "c": [true, null]}"#).unwrap();
    match &doc {
        JsonValue::Obj(entries) => {
            assert_eq!(entries.len(), 3);
            assert_eq!(entries[0].0, "a");
            match &entries[0].1 {
                JsonValue::Num(n) => assert_eq!(n, "1"),
                other => panic!("expected a number, got {:?}", other),
            }
            match &entries[2].1 {
                JsonValue::Arr(items) => {
                    assert_eq!(items.len(), 2);
                    assert!(matches!(items[0], JsonValue::Bool(true)));
                    assert!(matches!(items[1], JsonValue::Null));
                }
                other => panic!("expected an array, got {:?}", other),
            }
        }
        other => panic!("expected an object, got {:?}", other),
    }
}

#[test]
fn test_parse_json_failure_carries_position() {
    let err = parse_json("{\"a\": ").unwrap_err();
    assert!(err.line >= 1);
    assert!(err.column >= 1);
    assert!(!err.message.is_empty());
}

#[test]
fn test_parse_json_number_rendering_is_kept() {
    // Entries come back in serde_json's key order.
    let doc = parse_json(r#"{"big": 12345678901, "pi": 3.25}"#).unwrap();
    match &doc {
        JsonValue::Obj(entries) => {
            assert_eq!(entries[0].0, "big");
            match &entries[0].1 {
                JsonValue::Num(n) => assert_eq!(n, "12345678901"),
                other => panic!("expected a number, got {:?}", other),
            }
            match &entries[1].1 {
                JsonValue::Num(n) => assert_eq!(n, "3.25"),
                other => panic!("expected a number, got {:?}", other),
            }
        }
        other => panic!("expected an object, got {:?}", other),
    }
}

#[test]
fn test_script_decode_ignores_unknown_fields() {
    let doc = parse_json(
        r#"{
            "name": "n",
            "description": "d",
            "extra": {"anything": [1, 2, 3]},
            "cdp_commands": [
                {"method": "Page.reload", "params": {}, "later": 1}
            ]
        }"#,
    )
    .unwrap();
    let script = script_from_json(&doc).unwrap();
    assert_eq!(script.name, "n");
    assert_eq!(script.cdp_commands.len(), 1);
    assert_eq!(script.cdp_commands[0].method, "Page.reload");
}

#[test]
fn test_script_decode_reports_missing_fields() {
    let doc = parse_json(r#"{"description": "d", "cdp_commands": []}"#).unwrap();
    let err = script_from_json(&doc).unwrap_err();
    assert!(err.contains("missing field 'name'"));

    let doc = parse_json(r#"{"name": "n", "description": "d"}"#).unwrap();
    let err = script_from_json(&doc).unwrap_err();
    assert!(err.contains("missing field 'cdp_commands'"));

    let doc = parse_json(r#"{"name": "n", "description": "d", "cdp_commands": [{"params": {}}]}"#)
        .unwrap();
    let err = script_from_json(&doc).unwrap_err();
    assert!(err.contains("missing field 'method'"));
}

#[test]
fn test_script_decode_null_optionals() {
    let doc = parse_json(
        r#"{
            "name": "n",
            "description": "d",
            "created": null,
            "author": null,
            "cdp_commands": [
                {"method": "Page.reload", "params": {}, "save_as": null}
            ]
        }"#,
    )
    .unwrap();
    let script = script_from_json(&doc).unwrap();
    assert!(script.created.is_none());
    assert!(script.author.is_none());
    assert!(script.cdp_commands[0].save_as.is_none());
}

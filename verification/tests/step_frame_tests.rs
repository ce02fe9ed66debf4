//! Tests of capture options, formats, hashing, and the pure capture
//! decisions.

use robert_webdriver::step_frame::{build_transcript, frame_filename, visual_dom_node_count};
use robert_webdriver::{
    compute_string_hash, format_extension, format_string, ActionInfo, CaptureOptions, JsonValue,
    ScreenshotFormat,
};

#[test]
fn test_default_capture_options() {
    let options = CaptureOptions::default();
    assert_eq!(options.screenshot_dir, "./screenshots");
    assert_eq!(options.dom_dir.as_deref(), Some("./dom"));
    assert!(options.save_html);
    assert!(options.compute_hashes);
    assert!(!options.extract_interactive_elements);
}

#[test]
fn test_format_extension() {
    assert_eq!(format_extension(ScreenshotFormat::Png), "png");
    assert_eq!(format_extension(ScreenshotFormat::Jpeg), "jpg");
}

#[test]
fn test_format_string() {
    assert_eq!(format_string(ScreenshotFormat::Png), "png");
    assert_eq!(format_string(ScreenshotFormat::Jpeg), "jpeg");
}

#[test]
fn test_compute_string_hash() {
    let hash1 = compute_string_hash("hello world");
    let hash2 = compute_string_hash("hello world");
    let hash3 = compute_string_hash("different");

    // Same input should produce same hash
    assert_eq!(hash1, hash2);

    // Different input should produce different hash
    assert_ne!(hash1, hash3);

    // Hash should be 64 hex characters (SHA-256)
    assert_eq!(hash1.len(), 64);
}

#[test]
fn test_compute_string_hash_known_value() {
    assert_eq!(
        compute_string_hash("hello world"),
        "b94d27b9934d3e08a52e52d7da7dabfac484efe37a5380ee9088f7ace2efcde9"
    );
}

#[test]
fn test_default_capture_options_visual_dom() {
    let options = CaptureOptions::default();
    assert_eq!(options.visual_dom_dir.as_deref(), Some("./visualdom"));
    assert!(!options.capture_visual_dom); // Opt-in by default
    assert!(options.visual_dom_include_dom_rects);
    assert!(options.visual_dom_include_paint_order);
    assert!(options.visual_dom_include_images);
    assert!(!options.visual_dom_computed_styles.is_empty());
}

#[test]
fn test_computed_styles_presets() {
    let balanced = CaptureOptions::balanced_computed_styles();
    assert!(!balanced.is_empty());
    assert!(balanced.contains(&"display".to_string()));
    assert!(balanced.contains(&"position".to_string()));

    let minimal = CaptureOptions::minimal_computed_styles();
    assert!(minimal.len() < balanced.len());
    assert!(minimal.contains(&"display".to_string()));

    let all = CaptureOptions::all_computed_styles();
    assert!(all.is_empty()); // Empty vec means capture all
}

#[test]
fn test_frame_filename() {
    assert_eq!(frame_filename(0, "png"), "frame_0000.png");
    assert_eq!(frame_filename(7, "jpg"), "frame_0007.jpg");
    assert_eq!(frame_filename(42, "html"), "frame_0042.html");
    assert_eq!(frame_filename(123, "png"), "frame_0123.png");
    assert_eq!(frame_filename(12345, "png"), "frame_12345.png");
}

#[test]
fn test_build_transcript_prefers_instruction() {
    let action = Some(ActionInfo {
        action_type: "navigate".to_string(),
        intent: "Go somewhere".to_string(),
        target: None,
    });
    let t = build_transcript(Some("do the thing".to_string()), &action).unwrap();
    assert_eq!(t.action_description, "do the thing");
    assert!(t.reasoning.is_none());

    let t = build_transcript(None, &action).unwrap();
    assert_eq!(t.action_description, "Go somewhere");

    assert!(build_transcript(None, &None).is_none());
}

#[test]
fn test_visual_dom_node_count() {
    let snapshot = JsonValue::Obj(vec![(
        "documents".to_string(),
        JsonValue::Arr(vec![JsonValue::Obj(vec![(
            "nodes".to_string(),
            JsonValue::Obj(vec![(
                "nodeIndex".to_string(),
                JsonValue::Arr(vec![
                    JsonValue::Num("0".to_string()),
                    JsonValue::Num("1".to_string()),
                    JsonValue::Num("2".to_string()),
                ]),
            )]),
        )])]),
    )]);
    assert_eq!(visual_dom_node_count(&snapshot), 3);
    assert_eq!(visual_dom_node_count(&JsonValue::Null), 0);
    assert_eq!(visual_dom_node_count(&JsonValue::Obj(vec![])), 0);
}

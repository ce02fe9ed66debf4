//! Tests of the chat overlay state.

use robert_webdriver::ChatUI;

#[test]
fn test_chat_ui_creation() {
    let chat_ui = ChatUI::new();
    assert!(chat_ui.is_enabled());

    let chat_ui_disabled = ChatUI::with_enabled(false);
    assert!(!chat_ui_disabled.is_enabled());
}

#[test]
fn test_chat_ui_enable_disable() {
    let mut chat_ui = ChatUI::new();
    assert!(chat_ui.is_enabled());

    chat_ui.disable();
    assert!(!chat_ui.is_enabled());

    chat_ui.enable();
    assert!(chat_ui.is_enabled());
}

#[test]
fn test_injection_script_available() {
    let chat_ui = ChatUI::new();
    let script = chat_ui.get_injection_script();
    assert!(!script.is_empty());
    assert!(script.contains("robert-chat-container"));
}

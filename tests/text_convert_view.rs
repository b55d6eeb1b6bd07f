use base64_text::state_tab::{StateTab, StateTabStatus};
use base64_text::text_convert_view::{Command, Field, TextConvertView};

const READY: &str = "Ready to encode/decode base64 text";
const INVALID: &str = "Invalid base64 text";

#[test]
fn new_view_is_unfocused_and_ready() {
    let view = TextConvertView::new();
    assert_eq!(view.focused_input, None);
    assert_eq!(view.base64_state.plain_text, "");
    assert_eq!(view.base64_state.cipher_text, "");
    assert!(!view.base64_state.invalid_base64);
    assert_eq!(view.state_tab.status, StateTabStatus::Info);
    assert_eq!(view.state_tab.text, READY);
}

#[test]
fn plain_edit_while_focused_updates_cipher() {
    let mut view = TextConvertView::new();
    view.on_focus(Field::PlainText);
    let commands = view.on_content_changed(Field::PlainText, "hi");
    assert_eq!(
        commands,
        vec![
            Command::SetFieldContent(Field::CipherText, "aGk=".to_string()),
            Command::SetStatus(StateTabStatus::Info, READY.to_string()),
        ]
    );
    assert_eq!(view.base64_state.plain_text, "hi");
    assert_eq!(view.base64_state.cipher_text, "aGk=");
}

#[test]
fn cipher_edit_while_plain_focused_is_ignored() {
    let mut view = TextConvertView::new();
    view.on_focus(Field::PlainText);
    view.on_content_changed(Field::PlainText, "hello");
    let commands = view.on_content_changed(Field::CipherText, "aGk=");
    assert!(commands.is_empty());
    assert_eq!(view.base64_state.plain_text, "hello");
    assert_eq!(view.base64_state.cipher_text, "aGVsbG8=");
    assert_eq!(view.focused_input, Some(Field::PlainText));
}

#[test]
fn edit_without_focus_is_ignored() {
    let mut view = TextConvertView::new();
    view.on_focus(Field::CipherText);
    view.on_blur(Field::PlainText);
    assert_eq!(view.focused_input, None);
    assert!(view.on_content_changed(Field::CipherText, "aGk=").is_empty());
    assert_eq!(view.base64_state.cipher_text, "");
}

#[test]
fn cipher_edit_while_focused_updates_plain() {
    let mut view = TextConvertView::new();
    view.on_focus(Field::CipherText);
    let commands = view.on_content_changed(Field::CipherText, "aGVsbG8=");
    assert_eq!(
        commands,
        vec![
            Command::SetFieldContent(Field::PlainText, "hello".to_string()),
            Command::SetStatus(StateTabStatus::Info, READY.to_string()),
        ]
    );
}

#[test]
fn invalid_cipher_edit_shows_error_and_keeps_plain() {
    let mut view = TextConvertView::new();
    view.on_focus(Field::CipherText);
    view.on_content_changed(Field::CipherText, "aGk=");
    let commands = view.on_content_changed(Field::CipherText, "aGk=%");
    assert_eq!(
        commands,
        vec![
            Command::SetFieldContent(Field::PlainText, "hi".to_string()),
            Command::SetStatus(StateTabStatus::Error, INVALID.to_string()),
        ]
    );
    assert_eq!(view.state_tab.status, StateTabStatus::Error);
    assert_eq!(view.state_tab.text, INVALID);
    let commands = view.on_content_changed(Field::CipherText, "aGk=");
    assert_eq!(commands[1], Command::SetStatus(StateTabStatus::Info, READY.to_string()));
}

#[test]
fn reset_clears_fields_and_keeps_focus() {
    let mut view = TextConvertView::new();
    view.on_focus(Field::CipherText);
    view.on_content_changed(Field::CipherText, "%%");
    let commands = view.reset();
    assert_eq!(
        commands,
        vec![
            Command::SetFieldContent(Field::PlainText, String::new()),
            Command::SetFieldContent(Field::CipherText, String::new()),
            Command::SetStatus(StateTabStatus::Info, READY.to_string()),
        ]
    );
    assert_eq!(view.focused_input, Some(Field::CipherText));
    assert!(!view.base64_state.invalid_base64);
    assert_eq!(view.state_tab.text, READY);
}

#[test]
fn focus_requests_move_focus() {
    let view = TextConvertView::new();
    assert_eq!(view.focus_plain_text_input(), Command::MoveFocusTo(Field::PlainText));
    assert_eq!(view.focus_cipher_text_input(), Command::MoveFocusTo(Field::CipherText));
}

#[test]
fn state_tab_setters() {
    let mut tab = StateTab::new();
    assert_eq!(tab.status, StateTabStatus::Info);
    assert_eq!(tab.text, "");
    tab.set_error_text("bad".to_string());
    assert_eq!(tab.status, StateTabStatus::Error);
    assert_eq!(tab.text, "bad");
    tab.set_info_text("good".to_string());
    assert_eq!(tab.status, StateTabStatus::Info);
    assert_eq!(tab.text, "good");
}

use tauri_plugin_egui::cursor::{egui_cursor_to_tauri_cursor, HostCursor, ToolkitCursor};
use tauri_plugin_egui::input::{
    char_is_control, filter_text, to_canonical_modifiers, to_pointer_button, MouseButton,
    NativeModifiers, PointerButton,
};
use tauri_plugin_egui::keys::{translate_logical_key, translate_physical_key, Key, KeyCode, LogicalKey};

fn ch(s: &str) -> LogicalKey {
    LogicalKey::Character(s.to_string())
}

#[test]
fn logical_letters_in_either_case() {
    assert_eq!(translate_logical_key(&ch("a")), Some(Key::A));
    assert_eq!(translate_logical_key(&ch("Z")), Some(Key::Z));
    assert_eq!(translate_logical_key(&ch("q")), Some(Key::Q));
}

#[test]
fn logical_digits_and_whitespace() {
    assert_eq!(translate_logical_key(&ch("0")), Some(Key::Num0));
    assert_eq!(translate_logical_key(&ch("7")), Some(Key::Num7));
    assert_eq!(translate_logical_key(&ch(" ")), Some(Key::Space));
    assert_eq!(translate_logical_key(&ch("\t")), Some(Key::Tab));
    assert_eq!(translate_logical_key(&ch("\n")), Some(Key::Enter));
    assert_eq!(translate_logical_key(&ch("\r")), Some(Key::Enter));
    assert_eq!(translate_logical_key(&ch("\x08")), Some(Key::Backspace));
    assert_eq!(translate_logical_key(&ch("\x7f")), Some(Key::Delete));
    assert_eq!(translate_logical_key(&ch("\x1b")), Some(Key::Escape));
}

#[test]
fn logical_key_reads_first_character_only() {
    assert_eq!(translate_logical_key(&ch("ab")), Some(Key::A));
    assert_eq!(translate_logical_key(&ch("!a")), None);
}

#[test]
fn logical_unmapped_or_empty() {
    assert_eq!(translate_logical_key(&ch("")), None);
    assert_eq!(translate_logical_key(&ch("é")), None);
    assert_eq!(translate_logical_key(&ch("-")), None);
    assert_eq!(translate_logical_key(&LogicalKey::Other), None);
}

#[test]
fn physical_keys() {
    assert_eq!(translate_physical_key(&KeyCode::ArrowLeft), Some(Key::ArrowLeft));
    assert_eq!(translate_physical_key(&KeyCode::PageDown), Some(Key::PageDown));
    assert_eq!(translate_physical_key(&KeyCode::F1), Some(Key::F1));
    assert_eq!(translate_physical_key(&KeyCode::F12), Some(Key::F12));
    assert_eq!(translate_physical_key(&KeyCode::Insert), Some(Key::Insert));
    assert_eq!(translate_physical_key(&KeyCode::Other), None);
}

#[test]
fn cursor_mapping() {
    assert_eq!(egui_cursor_to_tauri_cursor(ToolkitCursor::PointingHand), HostCursor::Hand);
    assert_eq!(egui_cursor_to_tauri_cursor(ToolkitCursor::Text), HostCursor::Text);
    assert_eq!(egui_cursor_to_tauri_cursor(ToolkitCursor::ResizeHorizontal), HostCursor::EwResize);
    assert_eq!(egui_cursor_to_tauri_cursor(ToolkitCursor::ResizeVertical), HostCursor::NsResize);
    assert_eq!(egui_cursor_to_tauri_cursor(ToolkitCursor::ResizeNeSw), HostCursor::NeswResize);
    assert_eq!(egui_cursor_to_tauri_cursor(ToolkitCursor::ZoomOut), HostCursor::ZoomOut);
}

#[test]
fn cursor_without_counterpart_falls_back_to_default() {
    assert_eq!(egui_cursor_to_tauri_cursor(ToolkitCursor::Hidden), HostCursor::Default);
    assert_eq!(egui_cursor_to_tauri_cursor(ToolkitCursor::ResizeEast), HostCursor::Default);
    assert_eq!(egui_cursor_to_tauri_cursor(ToolkitCursor::ResizeColumn), HostCursor::Default);
}

#[test]
fn text_filter_keeps_printable_and_line_whitespace() {
    assert_eq!(filter_text("a\u{7}b\tc\n\rd\u{1b}e\u{85}f"), "ab\tc\n\rdef");
    assert_eq!(filter_text("héllo wörld"), "héllo wörld");
}

#[test]
fn text_filter_edges() {
    assert_eq!(filter_text(""), "");
    assert_eq!(filter_text("\u{0}\u{1f}\u{7f}\u{9f}"), "");
    assert_eq!(filter_text("\u{a0}"), "\u{a0}");
}

#[test]
fn control_characters_match_std() {
    for c in ['\0', '\t', 'a', '\u{7f}', '\u{9f}', '\u{a0}', 'é', '\u{200b}'] {
        assert_eq!(char_is_control(c), c.is_control());
    }
}

#[test]
fn modifiers_off_mac() {
    let m = to_canonical_modifiers(
        &NativeModifiers { alt: true, control: true, shift: false, super_key: true },
        false,
    );
    assert!(m.alt && m.ctrl && !m.shift);
    assert!(!m.mac_cmd);
    assert!(m.command);
}

#[test]
fn modifiers_on_mac() {
    let m = to_canonical_modifiers(
        &NativeModifiers { alt: false, control: true, shift: true, super_key: false },
        true,
    );
    assert!(m.ctrl && m.shift && !m.alt);
    assert!(!m.mac_cmd && !m.command);
    let m2 = to_canonical_modifiers(
        &NativeModifiers { alt: false, control: false, shift: false, super_key: true },
        true,
    );
    assert!(m2.mac_cmd && m2.command && !m2.ctrl);
}

#[test]
fn mouse_buttons() {
    assert_eq!(to_pointer_button(MouseButton::Left), Some(PointerButton::Primary));
    assert_eq!(to_pointer_button(MouseButton::Right), Some(PointerButton::Secondary));
    assert_eq!(to_pointer_button(MouseButton::Middle), Some(PointerButton::Middle));
    assert_eq!(to_pointer_button(MouseButton::Other(4)), None);
}

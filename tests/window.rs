use tauri_plugin_egui::input::{
    KeyEvent, Modifiers, MouseButton, NativeModifiers, PointerButton, ToolkitEvent, WindowEvent,
};
use tauri_plugin_egui::keys::{Key, KeyCode, LogicalKey};
use tauri_plugin_egui::window::{EguiWindow, Size};

type Pt = (f32, f32);

fn fresh() -> EguiWindow<Pt, ()> {
    EguiWindow::new((), Size { width: 800, height: 600 }, (0.0, 0.0), false)
}

fn press(pressed: bool) -> WindowEvent<Pt> {
    WindowEvent::MouseInput { pressed, button: MouseButton::Left }
}

fn key(pressed: bool, text: Option<&str>, logical: LogicalKey, physical: KeyCode) -> KeyEvent {
    KeyEvent {
        pressed,
        repeat: false,
        text: text.map(|t| t.to_string()),
        logical_key: logical,
        physical_key: physical,
    }
}

#[test]
fn button_uses_most_recent_move() {
    let mut w = fresh();
    assert!(w.handle_event(&WindowEvent::CursorMoved((10.0, 20.0))));
    assert!(w.handle_event(&WindowEvent::CursorMoved((30.5, 40.0))));
    assert!(w.handle_event(&press(true)));
    let last = w.egui_input.events.last().unwrap();
    assert_eq!(
        *last,
        ToolkitEvent::PointerButton {
            pos: (30.5, 40.0),
            button: PointerButton::Primary,
            pressed: true,
            modifiers: Modifiers::none(),
        }
    );
}

#[test]
fn button_before_any_move_uses_origin() {
    let mut w = fresh();
    assert!(w.handle_event(&press(false)));
    assert_eq!(
        w.egui_input.events,
        vec![ToolkitEvent::PointerButton {
            pos: (0.0, 0.0),
            button: PointerButton::Primary,
            pressed: false,
            modifiers: Modifiers::none(),
        }]
    );
}

#[test]
fn other_buttons_are_ignored() {
    let mut w = fresh();
    assert!(!w.handle_event(&WindowEvent::MouseInput { pressed: true, button: MouseButton::Other(5) }));
    assert!(w.egui_input.events.is_empty());
}

#[test]
fn wheel_delta_is_passed_with_modifiers() {
    let mut w = fresh();
    assert!(w.handle_event(&WindowEvent::ModifiersChanged(NativeModifiers {
        alt: false,
        control: false,
        shift: true,
        super_key: false,
    })));
    assert!(w.handle_event(&WindowEvent::MouseWheel((60.0, -120.0))));
    match &w.egui_input.events[0] {
        ToolkitEvent::MouseWheel { delta, modifiers } => {
            assert_eq!(*delta, (60.0, -120.0));
            assert!(modifiers.shift);
        }
        other => panic!("unexpected event {:?}", other),
    }
    assert!(w.egui_input.modifiers.shift);
}

#[test]
fn ime_text_is_filtered() {
    let mut w = fresh();
    assert!(w.handle_event(&WindowEvent::ReceivedImeText("日\u{7}本".to_string())));
    assert_eq!(w.egui_input.events, vec![ToolkitEvent::Text("日本".to_string())]);
    assert!(!w.handle_event(&WindowEvent::ReceivedImeText("\u{1b}".to_string())));
    assert_eq!(w.egui_input.events.len(), 1);
}

#[test]
fn resize_and_move_are_not_input() {
    let mut w = fresh();
    assert!(!w.handle_event(&WindowEvent::Moved));
    assert!(!w.handle_event(&WindowEvent::Other));
    assert!(!w.handle_event(&WindowEvent::Resized { width: 1, height: 1 }));
    assert!(w.egui_input.events.is_empty());
    assert_eq!(w.size, Size { width: 800, height: 600 });
}

#[test]
fn key_press_gives_text_then_key() {
    let mut w = fresh();
    let e = key(true, Some("a"), LogicalKey::Character("a".to_string()), KeyCode::Other);
    assert!(w.handle_keyboard_event(&e));
    assert_eq!(
        w.egui_input.events,
        vec![
            ToolkitEvent::Text("a".to_string()),
            ToolkitEvent::Key { key: Key::A, pressed: true, repeat: false, modifiers: Modifiers::none() },
        ]
    );
}

#[test]
fn key_release_gives_no_text() {
    let mut w = fresh();
    let e = key(false, Some("a"), LogicalKey::Character("a".to_string()), KeyCode::Other);
    assert!(w.handle_event(&WindowEvent::KeyboardInput(e)));
    assert_eq!(
        w.egui_input.events,
        vec![ToolkitEvent::Key { key: Key::A, pressed: false, repeat: false, modifiers: Modifiers::none() }]
    );
}

#[test]
fn physical_key_is_the_fallback() {
    let mut w = fresh();
    let e = key(true, None, LogicalKey::Other, KeyCode::ArrowUp);
    assert!(w.handle_keyboard_event(&e));
    assert_eq!(
        w.egui_input.events,
        vec![ToolkitEvent::Key { key: Key::ArrowUp, pressed: true, repeat: false, modifiers: Modifiers::none() }]
    );
}

#[test]
fn unmapped_key_keeps_its_text() {
    let mut w = fresh();
    let e = key(true, Some("é"), LogicalKey::Character("é".to_string()), KeyCode::Other);
    assert!(w.handle_keyboard_event(&e));
    assert_eq!(w.egui_input.events, vec![ToolkitEvent::Text("é".to_string())]);
}

#[test]
fn unmapped_key_without_text_is_not_consumed() {
    let mut w = fresh();
    let e = key(true, None, LogicalKey::Other, KeyCode::Other);
    assert!(!w.handle_keyboard_event(&e));
    let e2 = key(true, Some("\u{1}"), LogicalKey::Other, KeyCode::Other);
    assert!(!w.handle_keyboard_event(&e2));
    assert!(w.egui_input.events.is_empty());
}

#[test]
fn drain_empties_batch_and_later_events_go_to_next() {
    let mut w = fresh();
    w.handle_event(&WindowEvent::CursorMoved((1.0, 2.0)));
    w.handle_event(&WindowEvent::ModifiersChanged(NativeModifiers {
        alt: true,
        control: false,
        shift: false,
        super_key: false,
    }));
    let first = w.take_egui_input();
    assert_eq!(first.events, vec![ToolkitEvent::PointerMoved((1.0, 2.0))]);
    assert!(first.modifiers.alt);
    assert_eq!(first.size, Size { width: 800, height: 600 });
    assert_eq!(first.max_texture_side, 8192);
    assert!(w.egui_input.events.is_empty());
    assert_eq!(w.egui_input.modifiers, Modifiers::none());

    w.handle_event(&WindowEvent::CursorMoved((3.0, 4.0)));
    let second = w.take_egui_input();
    assert_eq!(second.events, vec![ToolkitEvent::PointerMoved((3.0, 4.0))]);
    assert!(!second.modifiers.alt);
    let third = w.take_egui_input();
    assert!(third.events.is_empty());
}

#[test]
fn held_modifiers_survive_the_drain() {
    let mut w = fresh();
    w.handle_event(&WindowEvent::ModifiersChanged(NativeModifiers {
        alt: false,
        control: true,
        shift: false,
        super_key: false,
    }));
    w.take_egui_input();
    w.handle_event(&press(true));
    match &w.egui_input.events[0] {
        ToolkitEvent::PointerButton { modifiers, .. } => assert!(modifiers.ctrl && modifiers.command),
        other => panic!("unexpected event {:?}", other),
    }
}

#[test]
fn resize_reports_change() {
    let mut w = fresh();
    assert!(w.resize(1024, 768));
    assert_eq!(w.size, Size { width: 1024, height: 768 });
    assert!(!w.resize(1024, 768));
    assert!(w.resize(1024, 0));
    assert_eq!(w.take_egui_input().size, Size { width: 1024, height: 0 });
}

use spell_framework::clipboard::{pasted_text, ClipboardRead};
use spell_framework::mapping::{
    get_string, key_for_keysym, map_pointer_button, mouse_cursor_to_shape, CursorShape, Key,
    KeyText, MouseCursor, PointerEventButton, BTN_EXTRA, BTN_LEFT, BTN_SIDE,
};
use xkeysym::key;

#[test]
fn pointer_buttons() {
    assert_eq!(map_pointer_button(BTN_LEFT), PointerEventButton::Left);
    assert_eq!(map_pointer_button(0x111), PointerEventButton::Right);
    assert_eq!(map_pointer_button(0x112), PointerEventButton::Middle);
    assert_eq!(map_pointer_button(BTN_SIDE), PointerEventButton::Back);
    assert_eq!(map_pointer_button(BTN_EXTRA), PointerEventButton::Forward);
    assert_eq!(map_pointer_button(0x115), PointerEventButton::Forward);
    assert_eq!(map_pointer_button(0x116), PointerEventButton::Back);
    assert_eq!(map_pointer_button(0x999), PointerEventButton::Other);
}

#[test]
fn cursor_shapes() {
    assert_eq!(mouse_cursor_to_shape(MouseCursor::NoCursor), CursorShape::Default);
    assert_eq!(mouse_cursor_to_shape(MouseCursor::Text), CursorShape::Text);
    assert_eq!(mouse_cursor_to_shape(MouseCursor::NwseResize), CursorShape::NwseResize);
    assert_eq!(mouse_cursor_to_shape(MouseCursor::Pointer), CursorShape::Pointer);
}

#[test]
fn keysyms_match_xkeysym() {
    assert_eq!(key_for_keysym(key::BackSpace), Some(Key::Backspace));
    assert_eq!(key_for_keysym(key::Tab), Some(Key::Tab));
    assert_eq!(key_for_keysym(key::Return), Some(Key::Return));
    assert_eq!(key_for_keysym(key::Escape), Some(Key::Escape));
    assert_eq!(key_for_keysym(key::Delete), Some(Key::Delete));
    assert_eq!(key_for_keysym(key::Shift_L), Some(Key::Shift));
    assert_eq!(key_for_keysym(key::Control_R), Some(Key::ControlR));
    assert_eq!(key_for_keysym(key::space), Some(Key::Space));
    assert_eq!(key_for_keysym(key::Up), Some(Key::UpArrow));
    assert_eq!(key_for_keysym(key::leftarrow), Some(Key::LeftArrow));
    assert_eq!(key_for_keysym(key::F1), Some(Key::Function(1)));
    assert_eq!(key_for_keysym(key::F24), Some(Key::Function(24)));
    assert_eq!(key_for_keysym(key::Home), Some(Key::Home));
    assert_eq!(key_for_keysym(key::Menu), Some(Key::Menu));
    assert_eq!(key_for_keysym(key::XF86_Stop), Some(Key::Stop));
    assert_eq!(key_for_keysym(key::a), None);
}

#[test]
fn key_text_for_events() {
    assert!(matches!(get_string(key::Escape, Some("\u{1b}".to_string())), KeyText::Special(Key::Escape)));
    match get_string(key::a, Some("a".to_string())) {
        KeyText::Typed(t) => assert_eq!(t, "a"),
        other => panic!("unexpected {:?}", other),
    }
    match get_string(key::a, None) {
        KeyText::Typed(t) => assert_eq!(t, ""),
        other => panic!("unexpected {:?}", other),
    }
}

#[test]
fn clipboard_reads() {
    assert_eq!(pasted_text(ClipboardRead::Text("hi".to_string())), Some("hi".to_string()));
    assert_eq!(pasted_text(ClipboardRead::NoSeats), Some(String::new()));
    assert_eq!(pasted_text(ClipboardRead::ClipboardEmpty), Some(String::new()));
    assert_eq!(pasted_text(ClipboardRead::NoMimeType), Some(String::new()));
    assert_eq!(pasted_text(ClipboardRead::Failed), None);
}

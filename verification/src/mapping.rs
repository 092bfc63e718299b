//! Mappings between Wayland input and the UI toolkit: pointer buttons,
//! cursor shapes and keys.
use vstd::prelude::*;

verus! {

/// The evdev code of the left pointer button.
pub const BTN_LEFT: u32 = 0x110;
/// The evdev code of the right pointer button.
pub const BTN_RIGHT: u32 = 0x111;
/// The evdev code of the middle pointer button.
pub const BTN_MIDDLE: u32 = 0x112;
/// The evdev code of the side pointer button.
pub const BTN_SIDE: u32 = 0x113;
/// The evdev code of the extra pointer button.
pub const BTN_EXTRA: u32 = 0x114;
/// The evdev code of the forward pointer button.
pub const BTN_FORWARD: u32 = 0x115;
/// The evdev code of the back pointer button.
pub const BTN_BACK: u32 = 0x116;

/// The pointer buttons the UI toolkit tells apart.
#[derive(Debug, Clone, Copy, PartialEq, Eq, Structural)]
pub enum PointerEventButton {
    Other,
    Left,
    Right,
    Middle,
    Back,
    Forward,
}

/// The button of an evdev button code.
pub open spec fn button_of(code: u32) -> PointerEventButton {
    if code == BTN_LEFT {
        PointerEventButton::Left
    } else if code == BTN_RIGHT {
        PointerEventButton::Right
    } else if code == BTN_MIDDLE {
        PointerEventButton::Middle
    } else if code == BTN_SIDE || code == BTN_BACK {
        PointerEventButton::Back
    } else if code == BTN_EXTRA || code == BTN_FORWARD {
        PointerEventButton::Forward
    } else {
        PointerEventButton::Other
    }
}

/// Maps an evdev pointer button code to the button of the UI toolkit.
pub fn map_pointer_button(button: u32) -> (b: PointerEventButton)
    ensures
        b == button_of(button),
{
    if button == BTN_LEFT {
        PointerEventButton::Left
    } else if button == BTN_RIGHT {
        PointerEventButton::Right
    } else if button == BTN_MIDDLE {
        PointerEventButton::Middle
    } else if button == BTN_SIDE || button == BTN_BACK {
        PointerEventButton::Back
    } else if button == BTN_EXTRA || button == BTN_FORWARD {
        PointerEventButton::Forward
    } else {
        PointerEventButton::Other
    }
}

/// The mouse cursors the UI toolkit asks for.
#[derive(Debug, Clone, Copy, PartialEq, Eq, Structural)]
pub enum MouseCursor {
    Default,
    /// No cursor is shown.
    NoCursor,
    Help,
    Pointer,
    Progress,
    Wait,
    Crosshair,
    Text,
    Alias,
    Copy,
    Move,
    NoDrop,
    NotAllowed,
    Grab,
    Grabbing,
    ColResize,
    RowResize,
    NResize,
    EResize,
    SResize,
    WResize,
    NeResize,
    NwResize,
    SeResize,
    SwResize,
    EwResize,
    NsResize,
    NeswResize,
    NwseResize,
}

/// The cursor shapes of the Wayland cursor-shape protocol that cursors map
/// to.
#[derive(Debug, Clone, Copy, PartialEq, Eq, Structural)]
pub enum CursorShape {
    Default,
    Help,
    Pointer,
    Progress,
    Wait,
    Crosshair,
    Text,
    Alias,
    Copy,
    Move,
    NoDrop,
    NotAllowed,
    Grab,
    Grabbing,
    ColResize,
    RowResize,
    NResize,
    EResize,
    SResize,
    WResize,
    NeResize,
    NwResize,
    SeResize,
    SwResize,
    EwResize,
    NsResize,
    NeswResize,
    NwseResize,
}

/// The shape of a cursor: the shape of the same name, and the default shape
/// for the cursor that is not shown (which is handled apart).
pub open spec fn shape_of(cursor: MouseCursor) -> CursorShape {
    match cursor {
        MouseCursor::Default => CursorShape::Default,
        MouseCursor::NoCursor => CursorShape::Default,
        MouseCursor::Help => CursorShape::Help,
        MouseCursor::Pointer => CursorShape::Pointer,
        MouseCursor::Progress => CursorShape::Progress,
        MouseCursor::Wait => CursorShape::Wait,
        MouseCursor::Crosshair => CursorShape::Crosshair,
        MouseCursor::Text => CursorShape::Text,
        MouseCursor::Alias => CursorShape::Alias,
        MouseCursor::Copy => CursorShape::Copy,
        MouseCursor::Move => CursorShape::Move,
        MouseCursor::NoDrop => CursorShape::NoDrop,
        MouseCursor::NotAllowed => CursorShape::NotAllowed,
        MouseCursor::Grab => CursorShape::Grab,
        MouseCursor::Grabbing => CursorShape::Grabbing,
        MouseCursor::ColResize => CursorShape::ColResize,
        MouseCursor::RowResize => CursorShape::RowResize,
        MouseCursor::NResize => CursorShape::NResize,
        MouseCursor::EResize => CursorShape::EResize,
        MouseCursor::SResize => CursorShape::SResize,
        MouseCursor::WResize => CursorShape::WResize,
        MouseCursor::NeResize => CursorShape::NeResize,
        MouseCursor::NwResize => CursorShape::NwResize,
        MouseCursor::SeResize => CursorShape::SeResize,
        MouseCursor::SwResize => CursorShape::SwResize,
        MouseCursor::EwResize => CursorShape::EwResize,
        MouseCursor::NsResize => CursorShape::NsResize,
        MouseCursor::NeswResize => CursorShape::NeswResize,
        MouseCursor::NwseResize => CursorShape::NwseResize,
    }
}

/// Maps the cursor the UI toolkit asks for to the Wayland cursor shape.
pub fn mouse_cursor_to_shape(cursor: MouseCursor) -> (shape: CursorShape)
    ensures
        shape == shape_of(cursor),
{
    match cursor {
        MouseCursor::Default => CursorShape::Default,
        MouseCursor::Help => CursorShape::Help,
        MouseCursor::Pointer => CursorShape::Pointer,
        MouseCursor::Progress => CursorShape::Progress,
        MouseCursor::Wait => CursorShape::Wait,
        MouseCursor::Crosshair => CursorShape::Crosshair,
        MouseCursor::Text => CursorShape::Text,
        MouseCursor::Alias => CursorShape::Alias,
        MouseCursor::Copy => CursorShape::Copy,
        MouseCursor::Move => CursorShape::Move,
        MouseCursor::NoDrop => CursorShape::NoDrop,
        MouseCursor::NotAllowed => CursorShape::NotAllowed,
        MouseCursor::Grab => CursorShape::Grab,
        MouseCursor::Grabbing => CursorShape::Grabbing,
        MouseCursor::ColResize => CursorShape::ColResize,
        MouseCursor::RowResize => CursorShape::RowResize,
        MouseCursor::NResize => CursorShape::NResize,
        MouseCursor::EResize => CursorShape::EResize,
        MouseCursor::SResize => CursorShape::SResize,
        MouseCursor::WResize => CursorShape::WResize,
        MouseCursor::NeResize => CursorShape::NeResize,
        MouseCursor::NwResize => CursorShape::NwResize,
        MouseCursor::SeResize => CursorShape::SeResize,
        MouseCursor::SwResize => CursorShape::SwResize,
        MouseCursor::EwResize => CursorShape::EwResize,
        MouseCursor::NsResize => CursorShape::NsResize,
        MouseCursor::NeswResize => CursorShape::NeswResize,
        MouseCursor::NwseResize => CursorShape::NwseResize,
        _ => CursorShape::Default,
    }
}

/// The special keys of the UI toolkit that Wayland key symbols map to.
#[derive(Debug, Clone, Copy, PartialEq, Eq, Structural)]
pub enum Key {
    Backspace,
    Tab,
    Return,
    Escape,
    Backtab,
    Delete,
    Shift,
    ShiftR,
    Control,
    ControlR,
    Alt,
    AltGr,
    CapsLock,
    Meta,
    MetaR,
    Space,
    UpArrow,
    DownArrow,
    LeftArrow,
    RightArrow,
    /// The function key `F1` to `F24`, by its number.
    Function(u8),
    Insert,
    Home,
    End,
    PageUp,
    PageDown,
    ScrollLock,
    Pause,
    SysReq,
    Stop,
    Menu,
}

/// The key symbol of `F1`; `F2` to `F24` follow it.
pub const KEYSYM_F1: u32 = 0xffbe;

/// The special key a key symbol stands for, if any.
pub open spec fn key_of(sym: u32) -> Option<Key> {
    if sym == 0xff08 {
        Some(Key::Backspace)
    } else if sym == 0xff09 {
        Some(Key::Tab)
    } else if sym == 0xff0d {
        Some(Key::Return)
    } else if sym == 0xff1b {
        Some(Key::Escape)
    } else if sym == 0x1000ff74 {
        Some(Key::Backtab)
    } else if sym == 0xffff {
        Some(Key::Delete)
    } else if sym == 0xffe1 {
        Some(Key::Shift)
    } else if sym == 0xffe2 {
        Some(Key::ShiftR)
    } else if sym == 0xffe3 {
        Some(Key::Control)
    } else if sym == 0xffe4 {
        Some(Key::ControlR)
    } else if sym == 0xffe9 {
        Some(Key::Alt)
    } else if sym == 0xffea {
        Some(Key::AltGr)
    } else if sym == 0xffe5 {
        Some(Key::CapsLock)
    } else if sym == 0xffe7 {
        Some(Key::Meta)
    } else if sym == 0xffe8 {
        Some(Key::MetaR)
    } else if sym == 0x20 {
        Some(Key::Space)
    } else if sym == 0xff52 || sym == 0x8fc {
        Some(Key::UpArrow)
    } else if sym == 0xff54 || sym == 0x8fe {
        Some(Key::DownArrow)
    } else if sym == 0xff51 || sym == 0x8fb {
        Some(Key::LeftArrow)
    } else if sym == 0xff53 || sym == 0x8fd {
        Some(Key::RightArrow)
    } else if KEYSYM_F1 <= sym < KEYSYM_F1 + 24 {
        Some(Key::Function((sym - KEYSYM_F1 + 1) as u8))
    } else if sym == 0xff63 {
        Some(Key::Insert)
    } else if sym == 0xff50 {
        Some(Key::Home)
    } else if sym == 0xff57 {
        Some(Key::End)
    } else if sym == 0xff55 {
        Some(Key::PageUp)
    } else if sym == 0xff56 {
        Some(Key::PageDown)
    } else if sym == 0xff14 {
        Some(Key::ScrollLock)
    } else if sym == 0xff13 {
        Some(Key::Pause)
    } else if sym == 0xff15 {
        Some(Key::SysReq)
    } else if sym == 0x1008ff28 {
        Some(Key::Stop)
    } else if sym == 0xff67 {
        Some(Key::Menu)
    } else {
        None
    }
}

/// Maps a key symbol to the special key it stands for, if any.
pub fn key_for_keysym(sym: u32) -> (k: Option<Key>)
    ensures
        k == key_of(sym),
{
    if sym == 0xff08 {
        Some(Key::Backspace)
    } else if sym == 0xff09 {
        Some(Key::Tab)
    } else if sym == 0xff0d {
        Some(Key::Return)
    } else if sym == 0xff1b {
        Some(Key::Escape)
    } else if sym == 0x1000ff74 {
        Some(Key::Backtab)
    } else if sym == 0xffff {
        Some(Key::Delete)
    } else if sym == 0xffe1 {
        Some(Key::Shift)
    } else if sym == 0xffe2 {
        Some(Key::ShiftR)
    } else if sym == 0xffe3 {
        Some(Key::Control)
    } else if sym == 0xffe4 {
        Some(Key::ControlR)
    } else if sym == 0xffe9 {
        Some(Key::Alt)
    } else if sym == 0xffea {
        Some(Key::AltGr)
    } else if sym == 0xffe5 {
        Some(Key::CapsLock)
    } else if sym == 0xffe7 {
        Some(Key::Meta)
    } else if sym == 0xffe8 {
        Some(Key::MetaR)
    } else if sym == 0x20 {
        Some(Key::Space)
    } else if sym == 0xff52 || sym == 0x8fc {
        Some(Key::UpArrow)
    } else if sym == 0xff54 || sym == 0x8fe {
        Some(Key::DownArrow)
    } else if sym == 0xff51 || sym == 0x8fb {
        Some(Key::LeftArrow)
    } else if sym == 0xff53 || sym == 0x8fd {
        Some(Key::RightArrow)
    } else if KEYSYM_F1 <= sym && sym < KEYSYM_F1 + 24 {
        Some(Key::Function((sym - KEYSYM_F1 + 1) as u8))
    } else if sym == 0xff63 {
        Some(Key::Insert)
    } else if sym == 0xff50 {
        Some(Key::Home)
    } else if sym == 0xff57 {
        Some(Key::End)
    } else if sym == 0xff55 {
        Some(Key::PageUp)
    } else if sym == 0xff56 {
        Some(Key::PageDown)
    } else if sym == 0xff14 {
        Some(Key::ScrollLock)
    } else if sym == 0xff13 {
        Some(Key::Pause)
    } else if sym == 0xff15 {
        Some(Key::SysReq)
    } else if sym == 0x1008ff28 {
        Some(Key::Stop)
    } else if sym == 0xff67 {
        Some(Key::Menu)
    } else {
        None
    }
}

/// The text of a key event: a special key, or the text the key typed.
#[derive(Debug)]
pub enum KeyText {
    Special(Key),
    Typed(String),
}

/// Turns a key event into what the UI toolkit receives: the special key its
/// symbol stands for, else the text it typed (empty when none).
pub fn get_string(keysym: u32, utf8: Option<String>) -> (t: KeyText)
    ensures
        match key_of(keysym) {
            Some(k) => t == KeyText::Special(k),
            None => t matches KeyText::Typed(s) && s@ == match utf8 {
                Some(u) => u@,
                None => Seq::<char>::empty(),
            },
        },
{
    match key_for_keysym(keysym) {
        Some(k) => KeyText::Special(k),
        None => match utf8 {
            Some(u) => KeyText::Typed(u),
            None => KeyText::Typed(String::new()),
        },
    }
}

/// The XKB key a key symbol belongs to: the keypad-independent arrow
/// symbols `leftarrow`, `uparrow`, `rightarrow` and `downarrow` (0x8fb to
/// 0x8fe) stand for the same keys as `Left`, `Up`, `Right` and `Down`
/// (0xff51 to 0xff54); every other symbol is its own key.
pub open spec fn xkb_key(sym: u32) -> u32 {
    if sym == 0x8fb {
        0xff51
    } else if sym == 0x8fc {
        0xff52
    } else if sym == 0x8fd {
        0xff53
    } else if sym == 0x8fe {
        0xff54
    } else {
        sym
    }
}

/// Distinct XKB keys become distinct keys of the toolkit: two key symbols
/// that map to the same special key belong to the same XKB key.
#[verifier::rlimit(50)]
pub proof fn lemma_keysym_mapping_injective(s1: u32, s2: u32)
    ensures
        key_of(s1) is Some && key_of(s1) == key_of(s2) ==> xkb_key(s1) == xkb_key(s2),
{
}

/// The navigation and editing keys of the XKB table map to the keys of the
/// same name: `Page_Up` (0xff55) and `Page_Down` (0xff56), `Home` (0xff50)
/// and `End` (0xff57), `Insert` (0xff63) and `Delete` (0xffff),
/// `BackSpace` (0xff08), `Tab` (0xff09), `Return` (0xff0d), `Escape`
/// (0xff1b), and `F1` to `F24` (0xffbe to 0xffd5) to the function keys of
/// the same number.
pub proof fn lemma_xkb_navigation_keys(n: u32)
    ensures
        key_of(0xff55) == Some(Key::PageUp),
        key_of(0xff56) == Some(Key::PageDown),
        key_of(0xff50) == Some(Key::Home),
        key_of(0xff57) == Some(Key::End),
        key_of(0xff63) == Some(Key::Insert),
        key_of(0xffff) == Some(Key::Delete),
        key_of(0xff08) == Some(Key::Backspace),
        key_of(0xff09) == Some(Key::Tab),
        key_of(0xff0d) == Some(Key::Return),
        key_of(0xff1b) == Some(Key::Escape),
        1 <= n <= 24 ==> key_of((0xffbe + n - 1) as u32) == Some(Key::Function(n as u8)),
{
}

} // verus!

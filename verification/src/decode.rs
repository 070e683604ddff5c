//! Classification of platform records into the event vocabulary.
//!
//! Every function here is total: a record the vocabulary has no word for
//! degrades to `Unsupported` or to the absence of a modifier, never to an
//! error.

use vstd::prelude::*;
use crate::event::{
    EventModel, FocusState, KeyCode, KeyModifier, MouseButton, MouseEventKind, TerminalEvent,
};
use crate::raw::{
    RawEvent, RawEventModel, RawKeyCode, RawKeyEvent, RawMouseButton, RawMouseEvent, RawMouseKind,
    MODIFIER_ALT, MODIFIER_CONTROL, MODIFIER_SHIFT,
};

verus! {

/// The modifier a set of modifier bits stands for: one of the three
/// recognised modifiers when the set holds exactly that one, nothing for the
/// empty set, for any other modifier and for every combination.
pub open spec fn key_modifier_of(bits: u8) -> Option<KeyModifier> {
    if bits == MODIFIER_CONTROL {
        Some(KeyModifier::Control)
    } else if bits == MODIFIER_SHIFT {
        Some(KeyModifier::Shift)
    } else if bits == MODIFIER_ALT {
        Some(KeyModifier::Alt)
    } else {
        None
    }
}

/// Whether the vocabulary has a word of its own for this key.
pub open spec fn is_supported_key(raw: RawKeyCode) -> bool {
    match raw {
        RawKeyCode::Char(_) => true,
        RawKeyCode::Enter => true,
        RawKeyCode::Backspace => true,
        RawKeyCode::Left => true,
        RawKeyCode::Right => true,
        RawKeyCode::Up => true,
        RawKeyCode::Down => true,
        _ => false,
    }
}

/// The key code a platform key is classified as.
pub open spec fn key_code_of(raw: RawKeyCode) -> KeyCode {
    match raw {
        RawKeyCode::Char(c) => KeyCode::Character(c),
        RawKeyCode::Enter => KeyCode::Enter,
        RawKeyCode::Backspace => KeyCode::Backspace,
        RawKeyCode::Left => KeyCode::Left,
        RawKeyCode::Right => KeyCode::Right,
        RawKeyCode::Up => KeyCode::Up,
        RawKeyCode::Down => KeyCode::Down,
        _ => KeyCode::Unsupported,
    }
}

/// The button a platform mouse button is classified as.
pub open spec fn mouse_button_of(raw: RawMouseButton) -> MouseButton {
    match raw {
        RawMouseButton::Left => MouseButton::Left,
        RawMouseButton::Right => MouseButton::Right,
        RawMouseButton::Middle => MouseButton::Middle,
    }
}

/// The kind a platform mouse record is classified as, button included.
pub open spec fn mouse_kind_of(raw: RawMouseKind) -> MouseEventKind {
    match raw {
        RawMouseKind::Down(button) => MouseEventKind::Down(mouse_button_of(button)),
        RawMouseKind::Up(button) => MouseEventKind::Up(mouse_button_of(button)),
        RawMouseKind::Drag(button) => MouseEventKind::Drag(mouse_button_of(button)),
        RawMouseKind::Moved => MouseEventKind::Moved,
        RawMouseKind::ScrollDown => MouseEventKind::ScrollDown,
        RawMouseKind::ScrollUp => MouseEventKind::ScrollUp,
    }
}

/// What a mouse record decodes to. The position is not part of the
/// vocabulary, and a plain movement drops the modifier.
pub open spec fn mouse_event_of(raw: RawMouseEvent) -> (MouseEventKind, Option<KeyModifier>) {
    let kind = mouse_kind_of(raw.kind);
    if kind is Moved {
        (kind, None)
    } else {
        (kind, key_modifier_of(raw.modifiers))
    }
}

/// What a key record decodes to: the classified key and the collapsed
/// modifier.
pub open spec fn key_event_of(raw: RawKeyEvent) -> (KeyCode, Option<KeyModifier>) {
    (key_code_of(raw.code), key_modifier_of(raw.modifiers))
}

/// The event a platform record decodes to.
pub open spec fn event_of(raw: RawEventModel) -> EventModel {
    match raw {
        RawEventModel::FocusGained => EventModel::Focus(FocusState::Gained),
        RawEventModel::FocusLost => EventModel::Focus(FocusState::Lost),
        RawEventModel::Key(key) => EventModel::Key(key_event_of(key).0, key_event_of(key).1),
        RawEventModel::Mouse(mouse) => EventModel::Mouse(
            mouse_event_of(mouse).0,
            mouse_event_of(mouse).1,
        ),
        RawEventModel::Paste(text) => EventModel::Paste(text),
        RawEventModel::Resize(columns, rows) => EventModel::Resize(columns, rows),
    }
}

/// Collapses a set of modifier bits to the single modifier it stands for.
pub fn decode_key_modifier(bits: u8) -> (modifier: Option<KeyModifier>)
    ensures
        modifier == key_modifier_of(bits),
        modifier == Some(KeyModifier::Control) <==> bits == MODIFIER_CONTROL,
        modifier == Some(KeyModifier::Shift) <==> bits == MODIFIER_SHIFT,
        modifier == Some(KeyModifier::Alt) <==> bits == MODIFIER_ALT,
        bits != MODIFIER_CONTROL && bits != MODIFIER_SHIFT && bits != MODIFIER_ALT
            ==> modifier is None,
{
    if bits == MODIFIER_CONTROL {
        Some(KeyModifier::Control)
    } else if bits == MODIFIER_SHIFT {
        Some(KeyModifier::Shift)
    } else if bits == MODIFIER_ALT {
        Some(KeyModifier::Alt)
    } else {
        None
    }
}

/// Classifies a platform key.
pub fn decode_key_code(raw: RawKeyCode) -> (code: KeyCode)
    ensures
        code == key_code_of(raw),
        code is Unsupported <==> !is_supported_key(raw),
        raw matches RawKeyCode::Char(c) ==> code == KeyCode::Character(c),
{
    match raw {
        RawKeyCode::Char(c) => KeyCode::Character(c),
        RawKeyCode::Enter => KeyCode::Enter,
        RawKeyCode::Backspace => KeyCode::Backspace,
        RawKeyCode::Left => KeyCode::Left,
        RawKeyCode::Right => KeyCode::Right,
        RawKeyCode::Up => KeyCode::Up,
        RawKeyCode::Down => KeyCode::Down,
        RawKeyCode::Home
        | RawKeyCode::End
        | RawKeyCode::PageUp
        | RawKeyCode::PageDown
        | RawKeyCode::Tab
        | RawKeyCode::BackTab
        | RawKeyCode::Delete
        | RawKeyCode::Insert
        | RawKeyCode::F(_)
        | RawKeyCode::Null
        | RawKeyCode::Esc
        | RawKeyCode::CapsLock
        | RawKeyCode::ScrollLock
        | RawKeyCode::NumLock
        | RawKeyCode::PrintScreen
        | RawKeyCode::Pause
        | RawKeyCode::Menu
        | RawKeyCode::KeypadBegin
        | RawKeyCode::Media
        | RawKeyCode::Modifier => KeyCode::Unsupported,
    }
}

/// Classifies a platform mouse button.
pub fn decode_mouse_button(raw: RawMouseButton) -> (button: MouseButton)
    ensures
        button == mouse_button_of(raw),
{
    match raw {
        RawMouseButton::Left => MouseButton::Left,
        RawMouseButton::Right => MouseButton::Right,
        RawMouseButton::Middle => MouseButton::Middle,
    }
}

/// Decodes a key record into its key code and modifier.
pub fn decode_key_event(raw: &RawKeyEvent) -> (decoded: (KeyCode, Option<KeyModifier>))
    ensures
        decoded == key_event_of(*raw),
{
    (decode_key_code(raw.code), decode_key_modifier(raw.modifiers))
}

/// Decodes a mouse record into its kind and modifier.
pub fn decode_mouse_event(raw: &RawMouseEvent) -> (decoded: (MouseEventKind, Option<KeyModifier>))
    ensures
        decoded == mouse_event_of(*raw),
        decoded.0 is Moved ==> decoded.1 is None,
{
    match raw.kind {
        RawMouseKind::Down(button) => (
            MouseEventKind::Down(decode_mouse_button(button)),
            decode_key_modifier(raw.modifiers),
        ),
        RawMouseKind::Up(button) => (
            MouseEventKind::Up(decode_mouse_button(button)),
            decode_key_modifier(raw.modifiers),
        ),
        RawMouseKind::Drag(button) => (
            MouseEventKind::Drag(decode_mouse_button(button)),
            decode_key_modifier(raw.modifiers),
        ),
        RawMouseKind::Moved => (MouseEventKind::Moved, None),
        RawMouseKind::ScrollDown => (
            MouseEventKind::ScrollDown,
            decode_key_modifier(raw.modifiers),
        ),
        RawMouseKind::ScrollUp => (MouseEventKind::ScrollUp, decode_key_modifier(raw.modifiers)),
    }
}

/// Decodes one platform record. Every record yields exactly one event, of
/// the record's own family: a key record a key event, and so on.
pub fn decode_event(raw: RawEvent) -> (event: TerminalEvent)
    ensures
        event@ == event_of(raw@),
        event@.well_formed(),
        event@ is Key <==> raw@ is Key,
        event@ is Mouse <==> raw@ is Mouse,
        event@ is Resize <==> raw@ is Resize,
        event@ is Focus <==> (raw@ is FocusGained || raw@ is FocusLost),
        event@ is Paste <==> raw@ is Paste,
{
    match raw {
        RawEvent::FocusGained => TerminalEvent::Focus(FocusState::Gained),
        RawEvent::FocusLost => TerminalEvent::Focus(FocusState::Lost),
        RawEvent::Key(key) => {
            let (code, modifier) = decode_key_event(&key);
            TerminalEvent::Key(code, modifier)
        },
        RawEvent::Mouse(mouse) => {
            let (kind, modifier) = decode_mouse_event(&mouse);
            TerminalEvent::Mouse(kind, modifier)
        },
        RawEvent::Paste(text) => TerminalEvent::Paste(text),
        RawEvent::Resize(columns, rows) => TerminalEvent::Resize(columns, rows),
    }
}

} // verus!

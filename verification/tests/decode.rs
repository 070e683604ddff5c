use crossterm::event::KeyModifiers;
use glerm::decode::{
    decode_event, decode_key_code, decode_key_event, decode_key_modifier, decode_mouse_button,
    decode_mouse_event,
};
use glerm::event::{FocusState, KeyCode, KeyModifier, MouseButton, MouseEventKind, TerminalEvent};
use glerm::raw::{
    RawEvent, RawKeyCode, RawKeyEvent, RawMouseButton, RawMouseEvent, RawMouseKind, MODIFIER_ALT,
    MODIFIER_CONTROL, MODIFIER_HYPER, MODIFIER_META, MODIFIER_NONE, MODIFIER_SHIFT, MODIFIER_SUPER,
};

fn mouse(kind: RawMouseKind, modifiers: u8) -> RawMouseEvent {
    RawMouseEvent { kind, column: 7, row: 3, modifiers }
}

#[test]
fn control_a_decodes_to_character_with_control() {
    let raw = RawEvent::Key(RawKeyEvent { code: RawKeyCode::Char('a'), modifiers: MODIFIER_CONTROL });
    assert_eq!(
        decode_event(raw),
        TerminalEvent::Key(KeyCode::Character('a'), Some(KeyModifier::Control))
    );
}

#[test]
fn resize_record_decodes_to_resize() {
    assert_eq!(decode_event(RawEvent::Resize(80, 24)), TerminalEvent::Resize(80, 24));
}

#[test]
fn resize_passes_extreme_dimensions_through() {
    assert_eq!(decode_event(RawEvent::Resize(0, 65535)), TerminalEvent::Resize(0, 65535));
}

#[test]
fn modifier_bits_agree_with_the_platform() {
    assert_eq!(KeyModifiers::SHIFT.bits(), MODIFIER_SHIFT);
    assert_eq!(KeyModifiers::CONTROL.bits(), MODIFIER_CONTROL);
    assert_eq!(KeyModifiers::ALT.bits(), MODIFIER_ALT);
    assert_eq!(KeyModifiers::SUPER.bits(), MODIFIER_SUPER);
    assert_eq!(KeyModifiers::HYPER.bits(), MODIFIER_HYPER);
    assert_eq!(KeyModifiers::META.bits(), MODIFIER_META);
    assert_eq!(KeyModifiers::NONE.bits(), MODIFIER_NONE);
}

#[test]
fn single_modifiers_are_recognised() {
    assert_eq!(decode_key_modifier(MODIFIER_CONTROL), Some(KeyModifier::Control));
    assert_eq!(decode_key_modifier(MODIFIER_SHIFT), Some(KeyModifier::Shift));
    assert_eq!(decode_key_modifier(MODIFIER_ALT), Some(KeyModifier::Alt));
}

#[test]
fn no_modifier_is_none() {
    assert_eq!(decode_key_modifier(MODIFIER_NONE), None);
}

#[test]
fn other_modifiers_are_none() {
    assert_eq!(decode_key_modifier(MODIFIER_SUPER), None);
    assert_eq!(decode_key_modifier(MODIFIER_HYPER), None);
    assert_eq!(decode_key_modifier(MODIFIER_META), None);
}

#[test]
fn combined_modifiers_are_none() {
    assert_eq!(decode_key_modifier(MODIFIER_CONTROL | MODIFIER_SHIFT), None);
    assert_eq!(decode_key_modifier(MODIFIER_CONTROL | MODIFIER_ALT), None);
    assert_eq!(decode_key_modifier(MODIFIER_SHIFT | MODIFIER_ALT), None);
    assert_eq!(decode_key_modifier(MODIFIER_CONTROL | MODIFIER_SUPER), None);
}

#[test]
fn every_modifier_value_outside_the_three_is_none() {
    for bits in 0..=255u8 {
        let expected = if bits == MODIFIER_CONTROL {
            Some(KeyModifier::Control)
        } else if bits == MODIFIER_SHIFT {
            Some(KeyModifier::Shift)
        } else if bits == MODIFIER_ALT {
            Some(KeyModifier::Alt)
        } else {
            None
        };
        assert_eq!(decode_key_modifier(bits), expected);
    }
}

#[test]
fn supported_keys_keep_their_meaning() {
    assert_eq!(decode_key_code(RawKeyCode::Char('x')), KeyCode::Character('x'));
    assert_eq!(decode_key_code(RawKeyCode::Char('é')), KeyCode::Character('é'));
    assert_eq!(decode_key_code(RawKeyCode::Enter), KeyCode::Enter);
    assert_eq!(decode_key_code(RawKeyCode::Backspace), KeyCode::Backspace);
    assert_eq!(decode_key_code(RawKeyCode::Left), KeyCode::Left);
    assert_eq!(decode_key_code(RawKeyCode::Right), KeyCode::Right);
    assert_eq!(decode_key_code(RawKeyCode::Up), KeyCode::Up);
    assert_eq!(decode_key_code(RawKeyCode::Down), KeyCode::Down);
}

#[test]
fn every_other_key_is_unsupported() {
    let others = vec![
        RawKeyCode::Home,
        RawKeyCode::End,
        RawKeyCode::PageUp,
        RawKeyCode::PageDown,
        RawKeyCode::Tab,
        RawKeyCode::BackTab,
        RawKeyCode::Delete,
        RawKeyCode::Insert,
        RawKeyCode::F(1),
        RawKeyCode::F(12),
        RawKeyCode::F(255),
        RawKeyCode::Null,
        RawKeyCode::Esc,
        RawKeyCode::CapsLock,
        RawKeyCode::ScrollLock,
        RawKeyCode::NumLock,
        RawKeyCode::PrintScreen,
        RawKeyCode::Pause,
        RawKeyCode::Menu,
        RawKeyCode::KeypadBegin,
        RawKeyCode::Media,
        RawKeyCode::Modifier,
    ];
    for raw in others {
        assert_eq!(decode_key_code(raw), KeyCode::Unsupported);
    }
}

#[test]
fn decoding_a_key_twice_gives_the_same_code() {
    assert_eq!(decode_key_code(RawKeyCode::Char('q')), decode_key_code(RawKeyCode::Char('q')));
    assert_eq!(decode_key_code(RawKeyCode::F(3)), decode_key_code(RawKeyCode::F(4)));
}

#[test]
fn key_event_pairs_code_and_modifier() {
    let raw = RawKeyEvent { code: RawKeyCode::Enter, modifiers: MODIFIER_SHIFT };
    assert_eq!(decode_key_event(&raw), (KeyCode::Enter, Some(KeyModifier::Shift)));
    let raw = RawKeyEvent { code: RawKeyCode::Esc, modifiers: MODIFIER_ALT | MODIFIER_SHIFT };
    assert_eq!(decode_key_event(&raw), (KeyCode::Unsupported, None));
}

#[test]
fn unsupported_key_is_still_a_key_event() {
    let raw = RawEvent::Key(RawKeyEvent { code: RawKeyCode::F(5), modifiers: MODIFIER_ALT });
    assert_eq!(
        decode_event(raw),
        TerminalEvent::Key(KeyCode::Unsupported, Some(KeyModifier::Alt))
    );
}

#[test]
fn mouse_buttons_decode_one_for_one() {
    assert_eq!(decode_mouse_button(RawMouseButton::Left), MouseButton::Left);
    assert_eq!(decode_mouse_button(RawMouseButton::Right), MouseButton::Right);
    assert_eq!(decode_mouse_button(RawMouseButton::Middle), MouseButton::Middle);
}

#[test]
fn press_release_and_drag_keep_button_and_modifier() {
    assert_eq!(
        decode_mouse_event(&mouse(RawMouseKind::Down(RawMouseButton::Left), MODIFIER_CONTROL)),
        (MouseEventKind::Down(MouseButton::Left), Some(KeyModifier::Control))
    );
    assert_eq!(
        decode_mouse_event(&mouse(RawMouseKind::Up(RawMouseButton::Right), MODIFIER_NONE)),
        (MouseEventKind::Up(MouseButton::Right), None)
    );
    assert_eq!(
        decode_mouse_event(&mouse(RawMouseKind::Drag(RawMouseButton::Middle), MODIFIER_SHIFT)),
        (MouseEventKind::Drag(MouseButton::Middle), Some(KeyModifier::Shift))
    );
}

#[test]
fn scrolls_keep_the_modifier() {
    assert_eq!(
        decode_mouse_event(&mouse(RawMouseKind::ScrollDown, MODIFIER_ALT)),
        (MouseEventKind::ScrollDown, Some(KeyModifier::Alt))
    );
    assert_eq!(
        decode_mouse_event(&mouse(RawMouseKind::ScrollUp, MODIFIER_CONTROL | MODIFIER_ALT)),
        (MouseEventKind::ScrollUp, None)
    );
}

#[test]
fn movement_drops_the_modifier() {
    assert_eq!(
        decode_mouse_event(&mouse(RawMouseKind::Moved, MODIFIER_CONTROL)),
        (MouseEventKind::Moved, None)
    );
    let event = decode_event(RawEvent::Mouse(mouse(RawMouseKind::Moved, MODIFIER_SHIFT)));
    assert_eq!(event, TerminalEvent::Mouse(MouseEventKind::Moved, None));
    assert!(event.is_well_formed());
}

#[test]
fn mouse_position_is_not_part_of_the_event() {
    let here = RawMouseEvent {
        kind: RawMouseKind::Down(RawMouseButton::Left),
        column: 1,
        row: 2,
        modifiers: MODIFIER_NONE,
    };
    let there = RawMouseEvent { column: 40, row: 12, ..here };
    assert_eq!(decode_event(RawEvent::Mouse(here)), decode_event(RawEvent::Mouse(there)));
}

#[test]
fn focus_records_decode_to_focus_events() {
    assert_eq!(decode_event(RawEvent::FocusGained), TerminalEvent::Focus(FocusState::Gained));
    assert_eq!(decode_event(RawEvent::FocusLost), TerminalEvent::Focus(FocusState::Lost));
}

#[test]
fn paste_keeps_its_text() {
    assert_eq!(
        decode_event(RawEvent::Paste(String::from("héllo\nworld"))),
        TerminalEvent::Paste(String::from("héllo\nworld"))
    );
    assert_eq!(decode_event(RawEvent::Paste(String::new())), TerminalEvent::Paste(String::new()));
}

#[test]
fn a_moved_event_with_a_modifier_is_not_well_formed() {
    let event = TerminalEvent::Mouse(MouseEventKind::Moved, Some(KeyModifier::Alt));
    assert!(!event.is_well_formed());
    assert!(TerminalEvent::Mouse(MouseEventKind::ScrollUp, Some(KeyModifier::Alt)).is_well_formed());
    assert!(TerminalEvent::Resize(1, 1).is_well_formed());
}

#[test]
fn events_clone_to_equal_events() {
    let event = TerminalEvent::Paste(String::from("abc"));
    assert_eq!(event.clone(), event);
    let raw = RawEvent::Paste(String::from("abc"));
    assert_eq!(raw.clone(), raw);
}

//! The closed event vocabulary handed to the consumer.

use vstd::prelude::*;

verus! {

/// The single modifier recognised on a key or mouse event.
///
/// An event either carries exactly one of these or none at all: absence is
/// written `Option::None`, so a combination of modifiers is never represented.
#[derive(Clone, Copy, Debug, PartialEq, Eq, Structural)]
pub enum KeyModifier {
    Control,
    Shift,
    Alt,
}

/// The keys the vocabulary distinguishes. Every other key is `Unsupported`,
/// which carries no payload.
#[derive(Clone, Copy, Debug, PartialEq, Eq, Structural)]
pub enum KeyCode {
    Character(char),
    Enter,
    Backspace,
    Left,
    Right,
    Up,
    Down,
    Unsupported,
}

/// The mouse buttons the vocabulary distinguishes.
#[derive(Clone, Copy, Debug, PartialEq, Eq, Structural)]
pub enum MouseButton {
    Left,
    Right,
    Middle,
}

/// What happened to the mouse. Presses, releases and drags name their
/// button; movement and scrolling have none.
#[derive(Clone, Copy, Debug, PartialEq, Eq, Structural)]
pub enum MouseEventKind {
    Down(MouseButton),
    Up(MouseButton),
    Drag(MouseButton),
    Moved,
    ScrollUp,
    ScrollDown,
}

/// Whether the terminal has the focus.
#[derive(Clone, Copy, Debug, PartialEq, Eq, Structural)]
pub enum FocusState {
    Gained,
    Lost,
}

/// One normalised terminal event.
#[derive(Debug, PartialEq, Eq)]
pub enum TerminalEvent {
    Key(KeyCode, Option<KeyModifier>),
    Mouse(MouseEventKind, Option<KeyModifier>),
    Resize(u16, u16),
    Focus(FocusState),
    Paste(String),
}

/// The mathematical value of a [`TerminalEvent`]: pasted text is a sequence of
/// characters, everything else is carried as it is.
pub enum EventModel {
    Key(KeyCode, Option<KeyModifier>),
    Mouse(MouseEventKind, Option<KeyModifier>),
    Resize(u16, u16),
    Focus(FocusState),
    Paste(Seq<char>),
}

impl View for TerminalEvent {
    type V = EventModel;

    open spec fn view(&self) -> EventModel {
        match *self {
            TerminalEvent::Key(code, modifier) => EventModel::Key(code, modifier),
            TerminalEvent::Mouse(kind, modifier) => EventModel::Mouse(kind, modifier),
            TerminalEvent::Resize(columns, rows) => EventModel::Resize(columns, rows),
            TerminalEvent::Focus(state) => EventModel::Focus(state),
            TerminalEvent::Paste(text) => EventModel::Paste(text@),
        }
    }
}

impl Clone for TerminalEvent {
    fn clone(&self) -> (copy: Self)
        ensures
            copy == *self,
    {
        match self {
            TerminalEvent::Key(code, modifier) => TerminalEvent::Key(*code, *modifier),
            TerminalEvent::Mouse(kind, modifier) => TerminalEvent::Mouse(*kind, *modifier),
            TerminalEvent::Resize(columns, rows) => TerminalEvent::Resize(*columns, *rows),
            TerminalEvent::Focus(state) => TerminalEvent::Focus(*state),
            TerminalEvent::Paste(text) => TerminalEvent::Paste(text.clone()),
        }
    }
}

impl EventModel {
    /// A plain pointer movement never carries a modifier.
    pub open spec fn well_formed(self) -> bool {
        self matches EventModel::Mouse(MouseEventKind::Moved, modifier) ==> modifier is None
    }
}

impl TerminalEvent {
    /// Whether the event respects the vocabulary's one structural rule: a
    /// `Moved` mouse event has no modifier.
    pub fn is_well_formed(&self) -> (ok: bool)
        ensures
            ok == self@.well_formed(),
    {
        match self {
            TerminalEvent::Mouse(MouseEventKind::Moved, Some(_)) => false,
            _ => true,
        }
    }
}

} // verus!

//! Platform input records, as the terminal subsystem reports them.
//!
//! These types mirror the platform's own record shapes one for one, so that a
//! record read from the terminal can be written down without deciding anything
//! about it. All classification happens in [`crate::decode`].

use vstd::prelude::*;

verus! {

/// Modifier bit for Shift in a record's modifier set.
pub const MODIFIER_SHIFT: u8 = 0x01;

/// Modifier bit for Control.
pub const MODIFIER_CONTROL: u8 = 0x02;

/// Modifier bit for Alt.
pub const MODIFIER_ALT: u8 = 0x04;

/// Modifier bit for Super.
pub const MODIFIER_SUPER: u8 = 0x08;

/// Modifier bit for Hyper.
pub const MODIFIER_HYPER: u8 = 0x10;

/// Modifier bit for Meta.
pub const MODIFIER_META: u8 = 0x20;

/// The empty modifier set.
pub const MODIFIER_NONE: u8 = 0x00;

/// Every key the platform can report.
#[derive(Clone, Copy, Debug, PartialEq, Eq, Structural)]
pub enum RawKeyCode {
    Backspace,
    Enter,
    Left,
    Right,
    Up,
    Down,
    Home,
    End,
    PageUp,
    PageDown,
    Tab,
    BackTab,
    Delete,
    Insert,
    /// A function key, with its number.
    F(u8),
    Char(char),
    Null,
    Esc,
    CapsLock,
    ScrollLock,
    NumLock,
    PrintScreen,
    Pause,
    Menu,
    KeypadBegin,
    /// Any media key.
    Media,
    /// A modifier key pressed on its own.
    Modifier,
}

/// A key record: the key and the set of modifier bits held with it.
#[derive(Clone, Copy, Debug, PartialEq, Eq, Structural)]
pub struct RawKeyEvent {
    pub code: RawKeyCode,
    pub modifiers: u8,
}

/// A mouse button as the platform reports it.
#[derive(Clone, Copy, Debug, PartialEq, Eq, Structural)]
pub enum RawMouseButton {
    Left,
    Right,
    Middle,
}

/// What the platform says happened to the mouse.
#[derive(Clone, Copy, Debug, PartialEq, Eq, Structural)]
pub enum RawMouseKind {
    Down(RawMouseButton),
    Up(RawMouseButton),
    Drag(RawMouseButton),
    Moved,
    ScrollDown,
    ScrollUp,
}

/// A mouse record: what happened, where, and the modifier bits held with it.
#[derive(Clone, Copy, Debug, PartialEq, Eq, Structural)]
pub struct RawMouseEvent {
    pub kind: RawMouseKind,
    pub column: u16,
    pub row: u16,
    pub modifiers: u8,
}

/// One record read from the terminal.
#[derive(Debug, PartialEq, Eq)]
pub enum RawEvent {
    FocusGained,
    FocusLost,
    Key(RawKeyEvent),
    Mouse(RawMouseEvent),
    Paste(String),
    Resize(u16, u16),
}

/// The mathematical value of a [`RawEvent`].
pub enum RawEventModel {
    FocusGained,
    FocusLost,
    Key(RawKeyEvent),
    Mouse(RawMouseEvent),
    Paste(Seq<char>),
    Resize(u16, u16),
}

impl View for RawEvent {
    type V = RawEventModel;

    open spec fn view(&self) -> RawEventModel {
        match *self {
            RawEvent::FocusGained => RawEventModel::FocusGained,
            RawEvent::FocusLost => RawEventModel::FocusLost,
            RawEvent::Key(key) => RawEventModel::Key(key),
            RawEvent::Mouse(mouse) => RawEventModel::Mouse(mouse),
            RawEvent::Paste(text) => RawEventModel::Paste(text@),
            RawEvent::Resize(columns, rows) => RawEventModel::Resize(columns, rows),
        }
    }
}

impl Clone for RawEvent {
    fn clone(&self) -> (copy: Self)
        ensures
            copy == *self,
    {
        match self {
            RawEvent::FocusGained => RawEvent::FocusGained,
            RawEvent::FocusLost => RawEvent::FocusLost,
            RawEvent::Key(key) => RawEvent::Key(*key),
            RawEvent::Mouse(mouse) => RawEvent::Mouse(*mouse),
            RawEvent::Paste(text) => RawEvent::Paste(text.clone()),
            RawEvent::Resize(columns, rows) => RawEvent::Resize(*columns, *rows),
        }
    }
}

} // verus!

//! The tagged-term layout in which events travel to the consumer.
//!
//! A message is a tree of atoms, numbers, text and tuples. Each event becomes
//! one message, tagged by its variant, with nested tags for its sub-kinds.

use vstd::prelude::*;
use crate::event::{
    EventModel, FocusState, KeyCode, KeyModifier, MouseButton, MouseEventKind, TerminalEvent,
};
use crate::text::string_from_char;

verus! {

/// The atoms that occur in messages.
#[derive(Clone, Copy, Debug, PartialEq, Eq, Structural)]
pub enum Tag {
    /// `none`: an absent optional value.
    OptionNone,
    /// `some`: the tag of a present optional value.
    OptionSome,
    Control,
    Shift,
    Alt,
    Focus,
    Key,
    Mouse,
    Paste,
    Resize,
    Enter,
    Left,
    Right,
    Down,
    Up,
    Backspace,
    Character,
    MouseDown,
    Drag,
    Moved,
    ScrollDown,
    ScrollUp,
    MouseLeft,
    MouseRight,
    MouseMiddle,
    Gained,
    Lost,
    Unsupported,
}

/// One message term.
#[derive(Debug, PartialEq, Eq)]
pub enum WireTerm {
    Atom(Tag),
    Number(u16),
    Text(String),
    Tuple(Vec<WireTerm>),
}

/// The mathematical value of a [`WireTerm`].
pub enum TermModel {
    Atom(Tag),
    Number(u16),
    Text(Seq<char>),
    Tuple(Seq<TermModel>),
}

impl View for WireTerm {
    type V = TermModel;

    open spec fn view(&self) -> TermModel
        decreases self,
    {
        match self {
            WireTerm::Atom(tag) => TermModel::Atom(*tag),
            WireTerm::Number(n) => TermModel::Number(*n),
            WireTerm::Text(text) => TermModel::Text(text@),
            WireTerm::Tuple(items) => TermModel::Tuple(
                Seq::new(
                    items@.len(),
                    |i: int|
                        if 0 <= i < items@.len() {
                            items@[i]@
                        } else {
                            TermModel::Atom(Tag::OptionNone)
                        },
                ),
            ),
        }
    }
}

impl Tag {
    /// The atom's text as the consumer reads it.
    pub open spec fn spelling(self) -> Seq<char> {
        match self {
            Tag::OptionNone => "none"@,
            Tag::OptionSome => "some"@,
            Tag::Control => "control"@,
            Tag::Shift => "shift"@,
            Tag::Alt => "alt"@,
            Tag::Focus => "focus"@,
            Tag::Key => "key"@,
            Tag::Mouse => "mouse"@,
            Tag::Paste => "paste"@,
            Tag::Resize => "resize"@,
            Tag::Enter => "enter"@,
            Tag::Left => "left"@,
            Tag::Right => "right"@,
            Tag::Down => "down"@,
            Tag::Up => "up"@,
            Tag::Backspace => "backspace"@,
            Tag::Character => "character"@,
            Tag::MouseDown => "mouse_down"@,
            Tag::Drag => "drag"@,
            Tag::Moved => "moved"@,
            Tag::ScrollDown => "scroll_down"@,
            Tag::ScrollUp => "scroll_up"@,
            Tag::MouseLeft => "mouse_left"@,
            Tag::MouseRight => "mouse_right"@,
            Tag::MouseMiddle => "mouse_middle"@,
            Tag::Gained => "gained"@,
            Tag::Lost => "lost"@,
            Tag::Unsupported => "unsupported"@,
        }
    }

    /// The atom's text.
    pub fn name(self) -> (text: &'static str)
        ensures
            text@ == self.spelling(),
    {
        match self {
            Tag::OptionNone => "none",
            Tag::OptionSome => "some",
            Tag::Control => "control",
            Tag::Shift => "shift",
            Tag::Alt => "alt",
            Tag::Focus => "focus",
            Tag::Key => "key",
            Tag::Mouse => "mouse",
            Tag::Paste => "paste",
            Tag::Resize => "resize",
            Tag::Enter => "enter",
            Tag::Left => "left",
            Tag::Right => "right",
            Tag::Down => "down",
            Tag::Up => "up",
            Tag::Backspace => "backspace",
            Tag::Character => "character",
            Tag::MouseDown => "mouse_down",
            Tag::Drag => "drag",
            Tag::Moved => "moved",
            Tag::ScrollDown => "scroll_down",
            Tag::ScrollUp => "scroll_up",
            Tag::MouseLeft => "mouse_left",
            Tag::MouseRight => "mouse_right",
            Tag::MouseMiddle => "mouse_middle",
            Tag::Gained => "gained",
            Tag::Lost => "lost",
            Tag::Unsupported => "unsupported",
        }
    }
}

/// The two-element tuple of `first` and `second`.
pub open spec fn pair_term(first: TermModel, second: TermModel) -> TermModel {
    TermModel::Tuple(seq![first, second])
}

/// The three-element tuple of `first`, `second` and `third`.
pub open spec fn triple_term(first: TermModel, second: TermModel, third: TermModel) -> TermModel {
    TermModel::Tuple(seq![first, second, third])
}

/// A modifier on the wire: `{some, Modifier}` when there is one, `none`
/// when there is not.
pub open spec fn modifier_term(modifier: Option<KeyModifier>) -> TermModel {
    match modifier {
        Some(KeyModifier::Control) => pair_term(
            TermModel::Atom(Tag::OptionSome),
            TermModel::Atom(Tag::Control),
        ),
        Some(KeyModifier::Shift) => pair_term(
            TermModel::Atom(Tag::OptionSome),
            TermModel::Atom(Tag::Shift),
        ),
        Some(KeyModifier::Alt) => pair_term(
            TermModel::Atom(Tag::OptionSome),
            TermModel::Atom(Tag::Alt),
        ),
        None => TermModel::Atom(Tag::OptionNone),
    }
}

/// A key code on the wire: `{character, Text}` for a character, where the
/// text holds that one character, and a bare atom for every other key.
pub open spec fn key_code_term(code: KeyCode) -> TermModel {
    match code {
        KeyCode::Character(c) => pair_term(
            TermModel::Atom(Tag::Character),
            TermModel::Text(seq![c]),
        ),
        KeyCode::Enter => TermModel::Atom(Tag::Enter),
        KeyCode::Backspace => TermModel::Atom(Tag::Backspace),
        KeyCode::Left => TermModel::Atom(Tag::Left),
        KeyCode::Right => TermModel::Atom(Tag::Right),
        KeyCode::Up => TermModel::Atom(Tag::Up),
        KeyCode::Down => TermModel::Atom(Tag::Down),
        KeyCode::Unsupported => TermModel::Atom(Tag::Unsupported),
    }
}

/// A key event on the wire: `{key, Code, Modifier}`.
pub open spec fn key_event_term(code: KeyCode, modifier: Option<KeyModifier>) -> TermModel {
    triple_term(TermModel::Atom(Tag::Key), key_code_term(code), modifier_term(modifier))
}

/// A resize on the wire: `{resize, Columns, Rows}`.
pub open spec fn resize_term(columns: u16, rows: u16) -> TermModel {
    triple_term(
        TermModel::Atom(Tag::Resize),
        TermModel::Number(columns),
        TermModel::Number(rows),
    )
}

/// A mouse button on the wire: a bare atom.
pub open spec fn mouse_button_term(button: MouseButton) -> TermModel {
    match button {
        MouseButton::Left => TermModel::Atom(Tag::MouseLeft),
        MouseButton::Right => TermModel::Atom(Tag::MouseRight),
        MouseButton::Middle => TermModel::Atom(Tag::MouseMiddle),
    }
}

/// A mouse event on the wire.
///
/// A press, a release and a drag are `{mouse, {Kind, Button, Modifier}}`; a
/// movement is `{mouse, moved}`; a scroll is the flat
/// `{mouse, Direction, Modifier}`.
///
/// **A release is tagged `mouse_down`, exactly as a press is.** The consumer
/// cannot tell the two apart on the wire; the distinction exists only in
/// [`MouseEventKind`]. See [`lemma_wire_format_faithful`] for what this loses
/// and the guarantee that nothing else is lost.
pub open spec fn mouse_event_term(kind: MouseEventKind, modifier: Option<KeyModifier>) -> TermModel {
    match kind {
        MouseEventKind::Down(button) => pair_term(
            TermModel::Atom(Tag::Mouse),
            triple_term(
                TermModel::Atom(Tag::MouseDown),
                mouse_button_term(button),
                modifier_term(modifier),
            ),
        ),
        MouseEventKind::Up(button) => pair_term(
            TermModel::Atom(Tag::Mouse),
            triple_term(
                TermModel::Atom(Tag::MouseDown),
                mouse_button_term(button),
                modifier_term(modifier),
            ),
        ),
        MouseEventKind::Drag(button) => pair_term(
            TermModel::Atom(Tag::Mouse),
            triple_term(
                TermModel::Atom(Tag::Drag),
                mouse_button_term(button),
                modifier_term(modifier),
            ),
        ),
        MouseEventKind::Moved => pair_term(
            TermModel::Atom(Tag::Mouse),
            TermModel::Atom(Tag::Moved),
        ),
        MouseEventKind::ScrollDown => triple_term(
            TermModel::Atom(Tag::Mouse),
            TermModel::Atom(Tag::ScrollDown),
            modifier_term(modifier),
        ),
        MouseEventKind::ScrollUp => triple_term(
            TermModel::Atom(Tag::Mouse),
            TermModel::Atom(Tag::ScrollUp),
            modifier_term(modifier),
        ),
    }
}

/// A focus change on the wire: `{focus, gained}` or `{focus, lost}`.
pub open spec fn focus_term(state: FocusState) -> TermModel {
    match state {
        FocusState::Gained => pair_term(TermModel::Atom(Tag::Focus), TermModel::Atom(Tag::Gained)),
        FocusState::Lost => pair_term(TermModel::Atom(Tag::Focus), TermModel::Atom(Tag::Lost)),
    }
}

/// Pasted text on the wire: `{paste, Text}`.
pub open spec fn paste_term(text: Seq<char>) -> TermModel {
    pair_term(TermModel::Atom(Tag::Paste), TermModel::Text(text))
}

/// The message an event travels as.
pub open spec fn event_term(event: EventModel) -> TermModel {
    match event {
        EventModel::Key(code, modifier) => key_event_term(code, modifier),
        EventModel::Mouse(kind, modifier) => mouse_event_term(kind, modifier),
        EventModel::Resize(columns, rows) => resize_term(columns, rows),
        EventModel::Focus(state) => focus_term(state),
        EventModel::Paste(text) => paste_term(text),
    }
}

/// Builds the tuple of two terms.
pub fn make_pair(first: WireTerm, second: WireTerm) -> (term: WireTerm)
    ensures
        term@ == pair_term(first@, second@),
{
    let mut items: Vec<WireTerm> = Vec::new();
    items.push(first);
    items.push(second);
    let term = WireTerm::Tuple(items);
    assert(term@->Tuple_0 =~= seq![first@, second@]);
    term
}

/// Builds the tuple of three terms.
pub fn make_triple(first: WireTerm, second: WireTerm, third: WireTerm) -> (term: WireTerm)
    ensures
        term@ == triple_term(first@, second@, third@),
{
    let mut items: Vec<WireTerm> = Vec::new();
    items.push(first);
    items.push(second);
    items.push(third);
    let term = WireTerm::Tuple(items);
    assert(term@->Tuple_0 =~= seq![first@, second@, third@]);
    term
}

/// Lays out a modifier.
pub fn encode_key_modifier(modifier: Option<KeyModifier>) -> (term: WireTerm)
    ensures
        term@ == modifier_term(modifier),
{
    match modifier {
        Some(KeyModifier::Control) => make_pair(
            WireTerm::Atom(Tag::OptionSome),
            WireTerm::Atom(Tag::Control),
        ),
        Some(KeyModifier::Shift) => make_pair(
            WireTerm::Atom(Tag::OptionSome),
            WireTerm::Atom(Tag::Shift),
        ),
        Some(KeyModifier::Alt) => make_pair(
            WireTerm::Atom(Tag::OptionSome),
            WireTerm::Atom(Tag::Alt),
        ),
        None => WireTerm::Atom(Tag::OptionNone),
    }
}

/// Lays out a key code.
pub fn encode_key_code(code: KeyCode) -> (term: WireTerm)
    ensures
        term@ == key_code_term(code),
{
    match code {
        KeyCode::Character(c) => make_pair(
            WireTerm::Atom(Tag::Character),
            WireTerm::Text(string_from_char(c)),
        ),
        KeyCode::Enter => WireTerm::Atom(Tag::Enter),
        KeyCode::Backspace => WireTerm::Atom(Tag::Backspace),
        KeyCode::Left => WireTerm::Atom(Tag::Left),
        KeyCode::Right => WireTerm::Atom(Tag::Right),
        KeyCode::Up => WireTerm::Atom(Tag::Up),
        KeyCode::Down => WireTerm::Atom(Tag::Down),
        KeyCode::Unsupported => WireTerm::Atom(Tag::Unsupported),
    }
}

/// Lays out a key event.
pub fn encode_key_event(code: KeyCode, modifier: Option<KeyModifier>) -> (term: WireTerm)
    ensures
        term@ == key_event_term(code, modifier),
{
    let modifier_part = encode_key_modifier(modifier);
    let code_part = encode_key_code(code);
    make_triple(WireTerm::Atom(Tag::Key), code_part, modifier_part)
}

/// Lays out a resize.
pub fn encode_resize(columns: u16, rows: u16) -> (term: WireTerm)
    ensures
        term@ == resize_term(columns, rows),
{
    make_triple(WireTerm::Atom(Tag::Resize), WireTerm::Number(columns), WireTerm::Number(rows))
}

/// Lays out a mouse button.
pub fn encode_mouse_button(button: MouseButton) -> (term: WireTerm)
    ensures
        term@ == mouse_button_term(button),
{
    match button {
        MouseButton::Left => WireTerm::Atom(Tag::MouseLeft),
        MouseButton::Right => WireTerm::Atom(Tag::MouseRight),
        MouseButton::Middle => WireTerm::Atom(Tag::MouseMiddle),
    }
}

/// Lays out a mouse event. A release goes out under the tag of a press.
pub fn encode_mouse_event(kind: MouseEventKind, modifier: Option<KeyModifier>) -> (term: WireTerm)
    ensures
        term@ == mouse_event_term(kind, modifier),
{
    let family = WireTerm::Atom(Tag::Mouse);
    match kind {
        MouseEventKind::Down(button) => {
            let button_part = encode_mouse_button(button);
            let modifier_part = encode_key_modifier(modifier);
            make_pair(
                family,
                make_triple(WireTerm::Atom(Tag::MouseDown), button_part, modifier_part),
            )
        },
        MouseEventKind::Up(button) => {
            let button_part = encode_mouse_button(button);
            let modifier_part = encode_key_modifier(modifier);
            make_pair(
                family,
                make_triple(WireTerm::Atom(Tag::MouseDown), button_part, modifier_part),
            )
        },
        MouseEventKind::Drag(button) => {
            let button_part = encode_mouse_button(button);
            let modifier_part = encode_key_modifier(modifier);
            make_pair(family, make_triple(WireTerm::Atom(Tag::Drag), button_part, modifier_part))
        },
        MouseEventKind::Moved => make_pair(family, WireTerm::Atom(Tag::Moved)),
        MouseEventKind::ScrollDown => {
            let modifier_part = encode_key_modifier(modifier);
            make_triple(family, WireTerm::Atom(Tag::ScrollDown), modifier_part)
        },
        MouseEventKind::ScrollUp => {
            let modifier_part = encode_key_modifier(modifier);
            make_triple(family, WireTerm::Atom(Tag::ScrollUp), modifier_part)
        },
    }
}

/// Lays out a focus change.
pub fn encode_focus(state: FocusState) -> (term: WireTerm)
    ensures
        term@ == focus_term(state),
{
    match state {
        FocusState::Gained => make_pair(WireTerm::Atom(Tag::Focus), WireTerm::Atom(Tag::Gained)),
        FocusState::Lost => make_pair(WireTerm::Atom(Tag::Focus), WireTerm::Atom(Tag::Lost)),
    }
}

/// Lays out pasted text.
pub fn encode_paste(text: String) -> (term: WireTerm)
    ensures
        term@ == paste_term(text@),
{
    make_pair(WireTerm::Atom(Tag::Paste), WireTerm::Text(text))
}

/// Lays out one event as the message the consumer receives.
pub fn encode_event(event: TerminalEvent) -> (term: WireTerm)
    ensures
        term@ == event_term(event@),
{
    match event {
        TerminalEvent::Key(code, modifier) => encode_key_event(code, modifier),
        TerminalEvent::Mouse(kind, modifier) => encode_mouse_event(kind, modifier),
        TerminalEvent::Resize(columns, rows) => encode_resize(columns, rows),
        TerminalEvent::Focus(state) => encode_focus(state),
        TerminalEvent::Paste(text) => encode_paste(text),
    }
}

/// Whether two events are a press and a release of the same button under the
/// same modifier, in either order.
pub open spec fn press_and_release(a: EventModel, b: EventModel) -> bool {
    &&& a matches EventModel::Mouse(kind_a, modifier_a)
    &&& b matches EventModel::Mouse(kind_b, modifier_b)
    &&& modifier_a == modifier_b
    &&& {
        ||| (kind_a matches MouseEventKind::Down(button) && kind_b == MouseEventKind::Up(button))
        ||| (kind_a matches MouseEventKind::Up(button) && kind_b == MouseEventKind::Down(button))
    }
}

proof fn lemma_pair_parts(a: TermModel, b: TermModel, c: TermModel, d: TermModel)
    requires
        pair_term(a, b) == pair_term(c, d),
    ensures
        a == c,
        b == d,
{
    assert(seq![a, b][0] == a && seq![a, b][1] == b);
    assert(seq![c, d][0] == c && seq![c, d][1] == d);
}

proof fn lemma_triple_parts(
    a: TermModel,
    b: TermModel,
    c: TermModel,
    d: TermModel,
    e: TermModel,
    f: TermModel,
)
    requires
        triple_term(a, b, c) == triple_term(d, e, f),
    ensures
        a == d,
        b == e,
        c == f,
{
    assert(seq![a, b, c][0] == a && seq![a, b, c][1] == b && seq![a, b, c][2] == c);
    assert(seq![d, e, f][0] == d && seq![d, e, f][1] == e && seq![d, e, f][2] == f);
}

/// The layout of a modifier determines the modifier.
pub proof fn lemma_modifier_term_injective(a: Option<KeyModifier>, b: Option<KeyModifier>)
    requires
        modifier_term(a) == modifier_term(b),
    ensures
        a == b,
{
    if a is Some && b is Some {
        let tag_a = match a->0 {
            KeyModifier::Control => Tag::Control,
            KeyModifier::Shift => Tag::Shift,
            KeyModifier::Alt => Tag::Alt,
        };
        let tag_b = match b->0 {
            KeyModifier::Control => Tag::Control,
            KeyModifier::Shift => Tag::Shift,
            KeyModifier::Alt => Tag::Alt,
        };
        lemma_pair_parts(
            TermModel::Atom(Tag::OptionSome),
            TermModel::Atom(tag_a),
            TermModel::Atom(Tag::OptionSome),
            TermModel::Atom(tag_b),
        );
    }
}

/// The layout of a key code determines the key code.
pub proof fn lemma_key_code_term_injective(a: KeyCode, b: KeyCode)
    requires
        key_code_term(a) == key_code_term(b),
    ensures
        a == b,
{
    if a is Character && b is Character {
        lemma_pair_parts(
            TermModel::Atom(Tag::Character),
            TermModel::Text(seq![a->Character_0]),
            TermModel::Atom(Tag::Character),
            TermModel::Text(seq![b->Character_0]),
        );
        assert(seq![a->Character_0][0] == a->Character_0);
        assert(seq![b->Character_0][0] == b->Character_0);
    }
}

/// The wire format loses nothing but the difference between a press and a
/// release: two well-formed events that travel as the same message are the
/// same event, or a press and a release of the same button under the same
/// modifier.
pub proof fn lemma_wire_format_faithful(a: EventModel, b: EventModel)
    requires
        a.well_formed(),
        b.well_formed(),
        event_term(a) == event_term(b),
    ensures
        a == b || press_and_release(a, b),
{
    lemma_event_term_shape(a);
    lemma_event_term_shape(b);
    match (a, b) {
        (EventModel::Key(code_a, modifier_a), EventModel::Key(code_b, modifier_b)) => {
            lemma_triple_parts(
                TermModel::Atom(Tag::Key),
                key_code_term(code_a),
                modifier_term(modifier_a),
                TermModel::Atom(Tag::Key),
                key_code_term(code_b),
                modifier_term(modifier_b),
            );
            lemma_key_code_term_injective(code_a, code_b);
            lemma_modifier_term_injective(modifier_a, modifier_b);
        },
        (EventModel::Mouse(kind_a, modifier_a), EventModel::Mouse(kind_b, modifier_b)) => {
            lemma_mouse_term_faithful(kind_a, modifier_a, kind_b, modifier_b);
        },
        (EventModel::Resize(columns_a, rows_a), EventModel::Resize(columns_b, rows_b)) => {
            lemma_triple_parts(
                TermModel::Atom(Tag::Resize),
                TermModel::Number(columns_a),
                TermModel::Number(rows_a),
                TermModel::Atom(Tag::Resize),
                TermModel::Number(columns_b),
                TermModel::Number(rows_b),
            );
        },
        (EventModel::Focus(state_a), EventModel::Focus(state_b)) => {
            let tag_a = if state_a is Gained { Tag::Gained } else { Tag::Lost };
            let tag_b = if state_b is Gained { Tag::Gained } else { Tag::Lost };
            lemma_pair_parts(
                TermModel::Atom(Tag::Focus),
                TermModel::Atom(tag_a),
                TermModel::Atom(Tag::Focus),
                TermModel::Atom(tag_b),
            );
        },
        (EventModel::Paste(text_a), EventModel::Paste(text_b)) => {
            lemma_pair_parts(
                TermModel::Atom(Tag::Paste),
                TermModel::Text(text_a),
                TermModel::Atom(Tag::Paste),
                TermModel::Text(text_b),
            );
        },
        _ => {},
    }
}

/// The tag that opens the message of an event.
pub open spec fn family_tag(event: EventModel) -> Tag {
    match event {
        EventModel::Key(_, _) => Tag::Key,
        EventModel::Mouse(_, _) => Tag::Mouse,
        EventModel::Resize(_, _) => Tag::Resize,
        EventModel::Focus(_) => Tag::Focus,
        EventModel::Paste(_) => Tag::Paste,
    }
}

/// Every message is a tuple that opens with the tag of its event's variant.
pub proof fn lemma_event_term_shape(event: EventModel)
    ensures
        event_term(event) is Tuple,
        event_term(event)->Tuple_0.len() >= 2,
        event_term(event)->Tuple_0[0] == TermModel::Atom(family_tag(event)),
{
}

proof fn lemma_mouse_term_faithful(
    kind_a: MouseEventKind,
    modifier_a: Option<KeyModifier>,
    kind_b: MouseEventKind,
    modifier_b: Option<KeyModifier>,
)
    requires
        kind_a is Moved ==> modifier_a is None,
        kind_b is Moved ==> modifier_b is None,
        mouse_event_term(kind_a, modifier_a) == mouse_event_term(kind_b, modifier_b),
    ensures
        (kind_a == kind_b && modifier_a == modifier_b) || press_and_release(
            EventModel::Mouse(kind_a, modifier_a),
            EventModel::Mouse(kind_b, modifier_b),
        ),
{
    let term_a = mouse_event_term(kind_a, modifier_a);
    let term_b = mouse_event_term(kind_b, modifier_b);
    let items_a = term_a->Tuple_0;
    let items_b = term_b->Tuple_0;
    assert(items_a.len() == items_b.len());
    assert(items_a[1] == items_b[1]);
    if kind_a is ScrollDown || kind_a is ScrollUp {
        assert(items_a.len() == 3);
        assert(items_a[2] == modifier_term(modifier_a));
        assert(items_b[2] == modifier_term(modifier_b));
        lemma_modifier_term_injective(modifier_a, modifier_b);
    } else if kind_a is Moved {
        assert(items_a[1] == TermModel::Atom(Tag::Moved));
    } else {
        assert(items_a.len() == 2);
        assert(items_a[1] is Tuple);
        assert(kind_b is Down || kind_b is Up || kind_b is Drag);
        let button_a = match kind_a {
            MouseEventKind::Down(button) => button,
            MouseEventKind::Up(button) => button,
            MouseEventKind::Drag(button) => button,
            _ => MouseButton::Left,
        };
        let button_b = match kind_b {
            MouseEventKind::Down(button) => button,
            MouseEventKind::Up(button) => button,
            MouseEventKind::Drag(button) => button,
            _ => MouseButton::Left,
        };
        let tag_a = if kind_a is Drag { Tag::Drag } else { Tag::MouseDown };
        let tag_b = if kind_b is Drag { Tag::Drag } else { Tag::MouseDown };
        lemma_triple_parts(
            TermModel::Atom(tag_a),
            mouse_button_term(button_a),
            modifier_term(modifier_a),
            TermModel::Atom(tag_b),
            mouse_button_term(button_b),
            modifier_term(modifier_b),
        );
        lemma_modifier_term_injective(modifier_a, modifier_b);
    }
}

} // verus!

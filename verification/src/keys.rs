//! Keyboard and pointer input as the host sends it.
//!
//! The host is a Qt application. Keys come as the numbers of `Qt::Key` with the
//! text that the keyboard layout gives; Slint takes texts in which each special
//! key has a character of its own.

pub mod laws;

use crate::dispatch::ThreadMsg;
use crate::text::{chars_of, same, text_from_bytes, text_from_chars};
use slint::platform::Key;
use vstd::prelude::*;
use vstd::utf8::{decode_utf8, valid_utf8};

verus! {

/// A key that has no text, or whose text is not what it means.
#[derive(Debug, Clone, Copy, PartialEq, Eq, Structural)]
pub enum PanelKey {
    Escape,
    Tab,
    Backspace,
    Return,
    Delete,
    Home,
    End,
    LeftArrow,
    UpArrow,
    RightArrow,
    DownArrow,
    Shift,
    Control,
    Meta,
    Alt,
}

/// The character that stands for a key.
pub open spec fn key_code(key: PanelKey) -> char {
    match key {
        PanelKey::Escape => '\u{1b}',
        PanelKey::Tab => '\u{9}',
        PanelKey::Backspace => '\u{8}',
        PanelKey::Return => '\u{a}',
        PanelKey::Delete => '\u{7f}',
        PanelKey::Home => '\u{f729}',
        PanelKey::End => '\u{f72b}',
        PanelKey::LeftArrow => '\u{f702}',
        PanelKey::UpArrow => '\u{f700}',
        PanelKey::RightArrow => '\u{f703}',
        PanelKey::DownArrow => '\u{f701}',
        PanelKey::Shift => '\u{10}',
        PanelKey::Control => '\u{11}',
        PanelKey::Meta => '\u{17}',
        PanelKey::Alt => '\u{12}',
    }
}

/// The character of a key, from `char::from` of `slint::platform::Key`; the
/// contract claims the character that Slint's table of keys gives each of them.
#[verifier::external_body]
fn key_char(key: PanelKey) -> (r: char)
    ensures
        r == key_code(key),
{
    char::from(match key {
        PanelKey::Escape => Key::Escape, PanelKey::Tab => Key::Tab,
        PanelKey::Backspace => Key::Backspace, PanelKey::Return => Key::Return,
        PanelKey::Delete => Key::Delete, PanelKey::Home => Key::Home, PanelKey::End => Key::End,
        PanelKey::LeftArrow => Key::LeftArrow, PanelKey::UpArrow => Key::UpArrow,
        PanelKey::RightArrow => Key::RightArrow, PanelKey::DownArrow => Key::DownArrow,
        PanelKey::Shift => Key::Shift, PanelKey::Control => Key::Control,
        PanelKey::Meta => Key::Meta, PanelKey::Alt => Key::Alt,
    })
}

/// The modifier that a number of `Qt::Key` stands for.
pub open spec fn modifier_of(qt_key: int) -> Option<PanelKey> {
    if qt_key == 0x0100_0020 {
        Some(PanelKey::Shift)
    } else if qt_key == 0x0100_0021 {
        Some(PanelKey::Control)
    } else if qt_key == 0x0100_0022 {
        Some(PanelKey::Meta)
    } else if qt_key == 0x0100_0023 {
        Some(PanelKey::Alt)
    } else {
        None
    }
}

/// The special key that a number of `Qt::Key` stands for.
pub open spec fn special_of(qt_key: int) -> Option<PanelKey> {
    if qt_key == 0x0100_0000 {
        Some(PanelKey::Escape)
    } else if qt_key == 0x0100_0001 {
        Some(PanelKey::Tab)
    } else if qt_key == 0x0100_0003 {
        Some(PanelKey::Backspace)
    } else if qt_key == 0x0100_0004 || qt_key == 0x0100_0005 {
        Some(PanelKey::Return)
    } else if qt_key == 0x0100_0007 {
        Some(PanelKey::Delete)
    } else if qt_key == 0x0100_0010 {
        Some(PanelKey::Home)
    } else if qt_key == 0x0100_0011 {
        Some(PanelKey::End)
    } else if qt_key == 0x0100_0012 {
        Some(PanelKey::LeftArrow)
    } else if qt_key == 0x0100_0013 {
        Some(PanelKey::UpArrow)
    } else if qt_key == 0x0100_0014 {
        Some(PanelKey::RightArrow)
    } else if qt_key == 0x0100_0015 {
        Some(PanelKey::DownArrow)
    } else {
        modifier_of(qt_key)
    }
}

/// The letter that was pressed with Control, where a text is the single control
/// character that this gives.
pub open spec fn control_letter(text: Seq<char>) -> Option<char> {
    if text.len() == 1 && 1 <= text[0] as u32 <= 26 {
        Some((text[0] as u32 + 96) as char)
    } else {
        None
    }
}

/// The character of a key that came without a text: that of its number, a
/// letter in lower case unless Shift is held.
pub open spec fn character_of(qt_key: int, shift: bool) -> Option<char> {
    if 0x41 <= qt_key <= 0x5a && !shift {
        Some((qt_key + 32) as char)
    } else if 0x20 <= qt_key <= 0x7e {
        Some(qt_key as char)
    } else {
        None
    }
}

/// The text by which a key is known to Slint, where it is.
pub open spec fn key_text(qt_key: int, text: Seq<char>, shift: bool) -> Option<Seq<char>> {
    match special_of(qt_key) {
        Some(key) => Some(seq![key_code(key)]),
        None => match control_letter(text) {
            Some(letter) => Some(seq![letter]),
            None => if text.len() > 0 {
                Some(text)
            } else {
                match character_of(qt_key, shift) {
                    Some(c) => Some(seq![c]),
                    None => None,
                }
            },
        },
    }
}

/// The modifier that a key is, where it is one.
pub fn modifier_key_for_qt_key(qt_key: i32) -> (r: Option<PanelKey>)
    ensures
        r == modifier_of(qt_key as int),
{
    if qt_key == 0x0100_0020 {
        Some(PanelKey::Shift)
    } else if qt_key == 0x0100_0021 {
        Some(PanelKey::Control)
    } else if qt_key == 0x0100_0022 {
        Some(PanelKey::Meta)
    } else if qt_key == 0x0100_0023 {
        Some(PanelKey::Alt)
    } else {
        None
    }
}

fn special_key_for_qt_key(qt_key: i32) -> (r: Option<PanelKey>)
    ensures
        r == special_of(qt_key as int),
{
    if qt_key == 0x0100_0000 {
        Some(PanelKey::Escape)
    } else if qt_key == 0x0100_0001 {
        Some(PanelKey::Tab)
    } else if qt_key == 0x0100_0003 {
        Some(PanelKey::Backspace)
    } else if qt_key == 0x0100_0004 || qt_key == 0x0100_0005 {
        Some(PanelKey::Return)
    } else if qt_key == 0x0100_0007 {
        Some(PanelKey::Delete)
    } else if qt_key == 0x0100_0010 {
        Some(PanelKey::Home)
    } else if qt_key == 0x0100_0011 {
        Some(PanelKey::End)
    } else if qt_key == 0x0100_0012 {
        Some(PanelKey::LeftArrow)
    } else if qt_key == 0x0100_0013 {
        Some(PanelKey::UpArrow)
    } else if qt_key == 0x0100_0014 {
        Some(PanelKey::RightArrow)
    } else if qt_key == 0x0100_0015 {
        Some(PanelKey::DownArrow)
    } else {
        modifier_key_for_qt_key(qt_key)
    }
}

fn text_of_char(c: char) -> (r: String)
    ensures
        r@ == seq![c],
{
    let mut one: Vec<char> = Vec::new();
    one.push(c);
    assert(one@ =~= seq![c]);
    text_from_chars(one.as_slice())
}

/// The text by which Slint knows a key: the character of a special key, the
/// letter of a control character, the text that came with the key, and without
/// one the character that the key's number stands for.
pub fn map_qt_key(qt_key: i32, text: &str, shift: bool) -> (r: Option<String>)
    ensures
        r is Some <==> key_text(qt_key as int, text@, shift) is Some,
        r is Some ==> r->0@ == key_text(qt_key as int, text@, shift)->0,
{
    if let Some(key) = special_key_for_qt_key(qt_key) {
        return Some(text_of_char(key_char(key)));
    }
    let chars: Vec<char> = chars_of(text);
    if chars.len() == 1 {
        let n: u32 = chars[0] as u32;
        if 1 <= n && n <= 26 {
            let letter: u8 = n as u8 + 96;
            return Some(text_of_char(letter as char));
        }
    }
    if chars.len() > 0 {
        return Some(text.to_owned());
    }
    if 0x41 <= qt_key && qt_key <= 0x5a && !shift {
        let code: u8 = qt_key as u8 + 32;
        Some(text_of_char(code as char))
    } else if 0x20 <= qt_key && qt_key <= 0x7e {
        let code: u8 = qt_key as u8;
        Some(text_of_char(code as char))
    } else {
        None
    }
}

/// Which of the panel's surfaces takes text.
#[derive(Debug, Clone, Copy, PartialEq, Eq, Structural)]
pub struct TextFocus {
    pub compose: bool,
    pub local_terminal: bool,
    pub secondary: bool,
}

/// Whether any surface takes text.
pub open spec fn focused(focus: TextFocus) -> bool {
    focus.compose || focus.local_terminal || focus.secondary
}

/// Whether any surface of the panel takes text, so that the host leaves the
/// keys to it; none does while there is no panel.
pub fn panel_rust_has_text_focus(panel: Option<TextFocus>) -> (r: bool)
    ensures
        r == (panel is Some && focused(panel->0)),
{
    match panel {
        Some(focus) => focus.compose || focus.local_terminal || focus.secondary,
        None => false,
    }
}

/// What becomes of a key: the host keeps it, the panel takes it and does
/// nothing, or Slint is told of it.
#[derive(Debug, Clone, PartialEq, Eq)]
pub enum KeyOutcome {
    Left,
    Taken,
    Released(String),
    Pressed(String),
}

/// A [`KeyOutcome`] as a mathematical value.
#[verifier::ext_equal]
pub enum KeyOutcomeView {
    Left,
    Taken,
    Released(Seq<char>),
    Pressed(Seq<char>),
}

impl View for KeyOutcome {
    type V = KeyOutcomeView;

    open spec fn view(&self) -> KeyOutcomeView {
        match *self {
            KeyOutcome::Left => KeyOutcomeView::Left,
            KeyOutcome::Taken => KeyOutcomeView::Taken,
            KeyOutcome::Released(text) => KeyOutcomeView::Released(text@),
            KeyOutcome::Pressed(text) => KeyOutcomeView::Pressed(text@),
        }
    }
}

/// The text in a buffer of the host's: nothing where it is not UTF-8.
pub open spec fn buffer_text(bytes: Seq<u8>) -> Seq<char> {
    if bytes.len() > 0 && valid_utf8(bytes) {
        decode_utf8(bytes)
    } else {
        Seq::empty()
    }
}

/// What becomes of a key. Only modifiers are told of when they are released:
/// a text goes in when its key is pressed, and must not go in twice.
pub open spec fn key_outcome(
    panel: Option<TextFocus>,
    qt_key: int,
    text: Seq<char>,
    pressed: bool,
    shift: bool,
) -> KeyOutcomeView {
    if panel is None || !focused(panel->0) {
        KeyOutcomeView::Left
    } else if !pressed {
        match modifier_of(qt_key) {
            Some(key) => KeyOutcomeView::Released(seq![key_code(key)]),
            None => KeyOutcomeView::Taken,
        }
    } else {
        match key_text(qt_key, text, shift) {
            Some(text) => KeyOutcomeView::Pressed(text),
            None => KeyOutcomeView::Left,
        }
    }
}

/// The text that the host gave, or another where it gave none.
pub open spec fn text_given_or(bytes: Seq<u8>, other: Seq<char>) -> Seq<char> {
    if bytes.len() > 0 && valid_utf8(bytes) {
        decode_utf8(bytes)
    } else {
        other
    }
}

/// The text in a buffer of the host's; `other` where it is empty or not UTF-8.
pub fn buffer_or(bytes: &[u8], other: &str) -> (r: String)
    ensures
        r@ == text_given_or(bytes@, other@),
{
    if bytes.len() == 0 {
        return other.to_owned();
    }
    match text_from_bytes(bytes) {
        Some(text) => text,
        None => other.to_owned(),
    }
}

/// Takes a key of the host: its number and text, whether it was pressed or
/// released, and the modifiers held, of which only Shift is looked at.
pub fn panel_rust_input_key(
    panel: Option<TextFocus>,
    qt_key: i32,
    text: &[u8],
    pressed: bool,
    modifiers: i32,
) -> (r: KeyOutcome)
    ensures
        r@ == key_outcome(
            panel,
            qt_key as int,
            buffer_text(text@),
            pressed,
            (modifiers & 0x0200_0000) != 0,
        ),
{
    proof {
        reveal_strlit("");
        assert(""@ =~= Seq::<char>::empty());
    }
    if !panel_rust_has_text_focus(panel) {
        return KeyOutcome::Left;
    }
    if !pressed {
        return match modifier_key_for_qt_key(qt_key) {
            Some(key) => KeyOutcome::Released(text_of_char(key_char(key))),
            None => KeyOutcome::Taken,
        };
    }
    let shift: bool = (modifiers & 0x0200_0000) != 0;
    let typed: String = buffer_or(text, "");
    match map_qt_key(qt_key, typed.as_str(), shift) {
        Some(key) => KeyOutcome::Pressed(key),
        None => KeyOutcome::Left,
    }
}

/// Letting go of a key never gives a text that it did not give as a modifier,
/// so no text goes in twice.
pub proof fn law_release_gives_no_text(
    panel: Option<TextFocus>,
    qt_key: int,
    text: Seq<char>,
    shift: bool,
)
    ensures
        match key_outcome(panel, qt_key, text, false, shift) {
            KeyOutcomeView::Pressed(_) => false,
            KeyOutcomeView::Released(sent) => key_outcome(panel, qt_key, text, true, shift)
                == KeyOutcomeView::Pressed(sent),
            _ => true,
        },
{
}

/// Every key is left to the host while no surface of the panel takes text.
pub proof fn law_unfocused_keys_are_left(
    panel: Option<TextFocus>,
    qt_key: int,
    text: Seq<char>,
    pressed: bool,
    shift: bool,
)
    requires
        panel is Some ==> !focused(panel->0),
    ensures
        key_outcome(panel, qt_key, text, pressed, shift) == KeyOutcomeView::Left,
{
}

/// The number of `Qt::CursorShape` for a kind of cursor.
pub open spec fn cursor_shape(kind: Seq<char>) -> int {
    if kind == "pointer"@ {
        13
    } else if kind == "text"@ {
        4
    } else {
        0
    }
}

/// The number of `Qt::CursorShape` for a kind of cursor: a pointing hand, a
/// beam for text, else an arrow.
pub fn qt_cursor_shape_for_kind(kind: &str) -> (r: i32)
    ensures
        r == cursor_shape(kind@),
{
    if same(kind, "pointer") {
        13
    } else if same(kind, "text") {
        4
    } else {
        0
    }
}

/// What the host can ask for whatever has the focus.
#[derive(Debug, Clone, PartialEq)]
pub enum HostCommand {
    Navigate(ThreadMsg),
    OpenThreadSearch,
}

/// The command with a number.
pub open spec fn command_of(command: int) -> Option<HostCommand> {
    if command == 0 {
        Some(HostCommand::Navigate(ThreadMsg::NavigateDelta((-1) as i32)))
    } else if command == 1 {
        Some(HostCommand::Navigate(ThreadMsg::NavigateDelta(1)))
    } else if command == 2 {
        Some(HostCommand::OpenThreadSearch)
    } else {
        None
    }
}

/// The command with a number: the previous thread, the next thread, and the
/// search for threads.
pub fn panel_rust_invoke_command(command: i32) -> (r: Option<HostCommand>)
    ensures
        r == command_of(command as int),
{
    if command == 0 {
        Some(HostCommand::Navigate(ThreadMsg::NavigateDelta(-1)))
    } else if command == 1 {
        Some(HostCommand::Navigate(ThreadMsg::NavigateDelta(1)))
    } else if command == 2 {
        Some(HostCommand::OpenThreadSearch)
    } else {
        None
    }
}

} // verus!

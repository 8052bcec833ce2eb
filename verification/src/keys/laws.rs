//! What becomes of keys, said of what is typed.

use crate::dispatch::ThreadMsg;
use crate::keys::{
    command_of, cursor_shape, focused, key_code, key_outcome, key_text, modifier_of, special_of,
    text_given_or, HostCommand, KeyOutcomeView, PanelKey, TextFocus,
};
use vstd::prelude::*;
use vstd::utf8::{encode_utf8, encode_utf8_decode_utf8, encode_utf8_valid_utf8};

verus! {

/// Whether a number of `Qt::Key` is that of a key that is known by itself: an
/// editing key, an arrow or a modifier.
pub open spec fn is_special(qt_key: int) -> bool {
    ||| qt_key == 0x0100_0000 || qt_key == 0x0100_0001 || qt_key == 0x0100_0003
    ||| qt_key == 0x0100_0004 || qt_key == 0x0100_0005 || qt_key == 0x0100_0007
    ||| 0x0100_0010 <= qt_key <= 0x0100_0015
    ||| 0x0100_0020 <= qt_key <= 0x0100_0023
}

/// What is typed goes in as it was typed, where the key has a text that is no
/// control character and is not known by itself.
pub proof fn law_typed_text_goes_in(qt_key: int, text: Seq<char>, shift: bool)
    requires
        !is_special(qt_key),
        text.len() > 0,
        text.len() > 1 || !(1 <= text[0] as u32 <= 26),
    ensures
        key_text(qt_key, text, shift) == Some(text),
{
}

/// A letter with Control goes in as the letter, in lower case.
pub proof fn law_control_letters(qt_key: int, n: int, shift: bool)
    requires
        !is_special(qt_key),
        1 <= n <= 26,
    ensures
        key_text(qt_key, seq![n as char], shift) == Some(seq![(96 + n) as char]),
{
}

/// A letter key without a text goes in as its letter, in upper case exactly while
/// Shift is held; another key for a character as that character.
pub proof fn law_keys_without_text(n: int, shift: bool)
    ensures
        0x41 <= n <= 0x5a && !shift ==> key_text(n, Seq::empty(), shift) == Some(
            seq![(n + 32) as char],
        ),
        0x41 <= n <= 0x5a && shift ==> key_text(n, Seq::empty(), shift) == Some(seq![n as char]),
        0x20 <= n <= 0x7e && !(0x41 <= n <= 0x5a) ==> key_text(n, Seq::empty(), shift) == Some(
            seq![n as char],
        ),
        0x7e < n < 0x0100_0000 || n < 0x20 ==> key_text(n, Seq::empty(), shift) is None,
{
}

/// The keys that are known by themselves are known whatever text comes with them,
/// each as itself.
pub proof fn law_special_keys(text: Seq<char>, shift: bool)
    ensures
        special_of(0x0100_0000) == Some(PanelKey::Escape),
        special_of(0x0100_0001) == Some(PanelKey::Tab),
        special_of(0x0100_0003) == Some(PanelKey::Backspace),
        special_of(0x0100_0004) == Some(PanelKey::Return),
        special_of(0x0100_0005) == Some(PanelKey::Return),
        special_of(0x0100_0007) == Some(PanelKey::Delete),
        special_of(0x0100_0010) == Some(PanelKey::Home),
        special_of(0x0100_0011) == Some(PanelKey::End),
        special_of(0x0100_0012) == Some(PanelKey::LeftArrow),
        special_of(0x0100_0013) == Some(PanelKey::UpArrow),
        special_of(0x0100_0014) == Some(PanelKey::RightArrow),
        special_of(0x0100_0015) == Some(PanelKey::DownArrow),
        special_of(0x0100_0020) == Some(PanelKey::Shift),
        special_of(0x0100_0021) == Some(PanelKey::Control),
        special_of(0x0100_0022) == Some(PanelKey::Meta),
        special_of(0x0100_0023) == Some(PanelKey::Alt),
        forall|qt_key: int|
            (#[trigger] special_of(qt_key) is Some <==> is_special(qt_key)) && (special_of(
                qt_key,
            ) is Some ==> key_text(qt_key, text, shift) == Some(
                seq![key_code(special_of(qt_key)->0)],
            )),
{
}

/// Different keys have different characters.
pub proof fn law_key_characters_differ(a: PanelKey, b: PanelKey)
    requires
        a != b,
    ensures
        key_code(a) != key_code(b),
{
}

/// While a surface of the panel takes text, a pressed key goes to it with its
/// text, and only a key without one is left to the host. Of released keys, none
/// is left; only modifiers are told of.
pub proof fn law_focused_keys_go_in(
    focus: TextFocus,
    qt_key: int,
    text: Seq<char>,
    shift: bool,
)
    requires
        focus.compose || focus.local_terminal || focus.secondary,
    ensures
        key_text(qt_key, text, shift) matches Some(sent) ==> key_outcome(
            Some(focus),
            qt_key,
            text,
            true,
            shift,
        ) == KeyOutcomeView::Pressed(sent),
        key_text(qt_key, text, shift) is None ==> key_outcome(
            Some(focus),
            qt_key,
            text,
            true,
            shift,
        ) is Left,
        !(0x0100_0020 <= qt_key <= 0x0100_0023) ==> key_outcome(
            Some(focus),
            qt_key,
            text,
            false,
            shift,
        ) is Taken,
        0x0100_0020 <= qt_key <= 0x0100_0023 ==> key_outcome(
            Some(focus),
            qt_key,
            text,
            false,
            shift,
        ) is Released,
{
}

/// A panel takes text where one of its three surfaces does.
pub proof fn law_any_surface_takes_text(focus: TextFocus)
    ensures
        focus.compose ==> focused(focus),
        focus.local_terminal ==> focused(focus),
        focus.secondary ==> focused(focus),
        !focus.compose && !focus.local_terminal && !focus.secondary ==> !focused(focus),
{
}

/// The cursor is a hand over what can be clicked, a beam over text, and an arrow
/// over everything else.
pub proof fn law_cursor_shapes(kind: Seq<char>)
    ensures
        kind == "pointer"@ ==> cursor_shape(kind) == 13,
        kind == "text"@ ==> cursor_shape(kind) == 4,
        kind != "pointer"@ && kind != "text"@ ==> cursor_shape(kind) == 0,
{
    reveal_strlit("pointer");
    reveal_strlit("text");
    assert("pointer"@.len() == 7 && "text"@.len() == 4);
}

/// The host's commands go to the thread before, to the thread after, and to the
/// search; there are no others.
pub proof fn law_host_commands(command: int)
    ensures
        command_of(0) matches Some(HostCommand::Navigate(ThreadMsg::NavigateDelta(d))) && d == -1,
        command_of(1) matches Some(HostCommand::Navigate(ThreadMsg::NavigateDelta(d))) && d == 1,
        command_of(2) == Some(HostCommand::OpenThreadSearch),
        command < 0 || command > 2 ==> command_of(command) is None,
{
}

/// The four modifiers are four keys in a row; no other key is one.
pub proof fn law_modifier_keys(qt_key: int)
    ensures
        modifier_of(qt_key) is Some <==> 0x0100_0020 <= qt_key <= 0x0100_0023,
        modifier_of(qt_key) == Some(PanelKey::Shift) <==> qt_key == 0x0100_0020,
        modifier_of(qt_key) == Some(PanelKey::Control) <==> qt_key == 0x0100_0021,
        modifier_of(qt_key) == Some(PanelKey::Meta) <==> qt_key == 0x0100_0022,
        modifier_of(qt_key) == Some(PanelKey::Alt) <==> qt_key == 0x0100_0023,
{
}

/// The text that the host writes is read; where it gives none, the other is taken.
pub proof fn law_given_text_is_read(text: Seq<char>, other: Seq<char>)
    ensures
        encode_utf8(text).len() > 0 ==> text_given_or(encode_utf8(text), other) == text,
        text_given_or(Seq::empty(), other) == other,
{
    encode_utf8_valid_utf8(text);
    encode_utf8_decode_utf8(text);
}

} // verus!

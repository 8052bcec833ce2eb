use panel_rust::dirty::{Dirty, ScalarField};
use panel_rust::dispatch::{update, ComposeMsg, Msg, ThreadMsg, UiMsg};
use panel_rust::effect::Effect;
use panel_rust::keys::{
    map_qt_key, modifier_key_for_qt_key, panel_rust_has_text_focus, panel_rust_input_key,
    panel_rust_invoke_command, qt_cursor_shape_for_kind, HostCommand, KeyOutcome, PanelKey,
    TextFocus,
};
use panel_rust::model::{Model, ThreadModel};
use panel_rust::text_util::{contains_ci, word_boundary_before};
use slint::platform::Key;
use slint::SharedString;

const QT_KEY_A: i32 = 0x41;
const QT_KEY_B: i32 = 0x42;
const QT_KEY_Z: i32 = 0x5a;
const QT_KEY_TAB: i32 = 0x0100_0001;
const QT_KEY_RETURN: i32 = 0x0100_0004;
const QT_KEY_SHIFT: i32 = 0x0100_0020;

fn three_threads(selected: usize) -> Model {
    Model {
        threads: (0..3).map(|_| ThreadModel::default()).collect(),
        selected_thread: selected,
        ..Model::default()
    }
}

#[test]
fn navigate_delta_wraps_the_same_way_select_visible_thread_would_clamp() {
    let mut model = Model {
        threads: (0..3).map(|_| ThreadModel::default()).collect(),
        selected_thread: 2,
        ..Model::default()
    };
    let (_, dirty) = update(
        &mut model,
        Msg::Ui(UiMsg::Thread(ThreadMsg::NavigateDelta(1))),
    );
    assert_eq!(model.selected_thread, 0);
    assert_eq!(dirty, vec![Dirty::Scalar(ScalarField::SelectedThread)]);
}

#[test]
fn navigation_back_undoes_navigation() {
    let mut model = three_threads(0);
    update(&mut model, Msg::Ui(UiMsg::Thread(ThreadMsg::NavigateDelta(-1))));
    assert_eq!(model.selected_thread, 2);
    update(&mut model, Msg::Ui(UiMsg::Thread(ThreadMsg::NavigateDelta(1))));
    assert_eq!(model.selected_thread, 0);
}

#[test]
fn a_selection_stays_in_the_list() {
    let mut model = three_threads(1);
    update(&mut model, Msg::Ui(UiMsg::Thread(ThreadMsg::Selected(2))));
    assert_eq!(model.selected_thread, 2);
    update(&mut model, Msg::Ui(UiMsg::Thread(ThreadMsg::Selected(7))));
    assert!(model.selected_thread < 3);
}

#[test]
fn sending_without_a_thread_asks_for_nothing() {
    let mut model = Model::default();
    let (effects, _) = update(
        &mut model,
        Msg::Ui(UiMsg::Compose(ComposeMsg::SendRequested("hi".to_owned()))),
    );
    assert!(effects.is_empty());
    let mut model = three_threads(1);
    let (effects, _) = update(
        &mut model,
        Msg::Ui(UiMsg::Compose(ComposeMsg::SendRequested("hi".to_owned()))),
    );
    assert!(matches!(effects.as_slice(), [Effect::SendPrompt { .. }]));
    let (effects, _) = update(&mut model, Msg::Ui(UiMsg::Compose(ComposeMsg::StopRequested)));
    assert!(matches!(effects.as_slice(), [Effect::CancelGeneration { .. }]));
}

#[test]
fn ctrl_letter_control_characters_recover_the_plain_letter() {
    assert_eq!(map_qt_key(QT_KEY_A, "\u{1}", false).unwrap(), "a");
    assert_eq!(map_qt_key(QT_KEY_B, "\u{2}", false).unwrap(), "b");
    assert_eq!(map_qt_key(QT_KEY_Z, "\u{1a}", false).unwrap(), "z");
}

#[test]
fn ctrl_shift_letter_still_recovers_the_letter_despite_lost_case() {
    assert_eq!(map_qt_key(QT_KEY_B, "\u{2}", true).unwrap(), "b");
}

#[test]
fn plain_tab_and_return_are_unaffected() {
    assert_eq!(
        map_qt_key(QT_KEY_TAB, "\t", false).unwrap(),
        SharedString::from(Key::Tab).to_string()
    );
    assert_eq!(
        map_qt_key(QT_KEY_RETURN, "\r", false).unwrap(),
        SharedString::from(Key::Return).to_string()
    );
}

#[test]
fn regular_printable_text_passes_through_unchanged() {
    assert_eq!(map_qt_key(QT_KEY_A, "a", false).unwrap(), "a");
    assert_eq!(map_qt_key(QT_KEY_B, "B", false).unwrap(), "B");
}

#[test]
fn multi_char_text_is_not_treated_as_a_control_character() {
    assert_eq!(map_qt_key(QT_KEY_A, "ab", false).unwrap(), "ab");
}

#[test]
fn every_special_key_is_the_character_of_its_name() {
    for (code, key) in [
        (0x0100_0000, Key::Escape),
        (0x0100_0001, Key::Tab),
        (0x0100_0003, Key::Backspace),
        (0x0100_0004, Key::Return),
        (0x0100_0007, Key::Delete),
        (0x0100_0010, Key::Home),
        (0x0100_0011, Key::End),
        (0x0100_0012, Key::LeftArrow),
        (0x0100_0013, Key::UpArrow),
        (0x0100_0014, Key::RightArrow),
        (0x0100_0015, Key::DownArrow),
    ] {
        assert_eq!(
            map_qt_key(code, "", false).unwrap(),
            SharedString::from(key).to_string()
        );
    }
    assert_eq!(map_qt_key(QT_KEY_A, "", false).as_deref(), Some("a"));
    assert_eq!(map_qt_key(QT_KEY_A, "", true).as_deref(), Some("A"));
    assert_eq!(map_qt_key(0x0100_0030, "", false), None);
    assert_eq!(modifier_key_for_qt_key(QT_KEY_SHIFT), Some(PanelKey::Shift));
    assert_eq!(modifier_key_for_qt_key(QT_KEY_A), None);
}

#[test]
fn keys_are_left_to_the_host_without_text_focus() {
    let none = TextFocus { compose: false, local_terminal: false, secondary: false };
    assert!(!panel_rust_has_text_focus(None));
    assert_eq!(
        panel_rust_input_key(Some(none), QT_KEY_A, b"a", true, 0),
        KeyOutcome::Left
    );
    let compose = TextFocus { compose: true, local_terminal: false, secondary: false };
    assert_eq!(
        panel_rust_input_key(Some(compose), QT_KEY_A, b"a", true, 0),
        KeyOutcome::Pressed("a".to_owned())
    );
}

#[test]
fn cursor_shape_maps_known_kinds_to_qt_enum_values() {
    assert_eq!(qt_cursor_shape_for_kind("pointer"), 13);
    assert_eq!(qt_cursor_shape_for_kind("text"), 4);
}

#[test]
fn cursor_shape_defaults_to_arrow_for_default_and_unknown_kinds() {
    assert_eq!(qt_cursor_shape_for_kind("default"), 0);
    assert_eq!(qt_cursor_shape_for_kind(""), 0);
    assert_eq!(qt_cursor_shape_for_kind("some-future-kind"), 0);
}

#[test]
fn host_commands_move_between_threads_and_open_the_search() {
    let mut seen = Vec::new();
    for code in 0..4 {
        if let Some(command) = panel_rust_invoke_command(code) {
            seen.push(command);
        }
    }
    assert!(seen.contains(&HostCommand::OpenThreadSearch));
    assert!(seen.contains(&HostCommand::Navigate(ThreadMsg::NavigateDelta(1))));
    assert!(panel_rust_invoke_command(-1).is_none());
}

#[test]
fn text_is_found_without_regard_to_case() {
    assert!(contains_ci("Fix TIMELINE crash", "timeline"));
    assert!(!contains_ci("Fix", "fade"));
    assert!(contains_ci("anything", ""));
    assert!(contains_ci("\u{c4}pfel", "\u{e4}PFEL"));
}

#[test]
fn a_word_starts_behind_the_white_space_before_it() {
    assert_eq!(word_boundary_before("hello world", 11), 6);
    assert_eq!(word_boundary_before("hello world  ", 13), 6);
    assert_eq!(word_boundary_before("hello", 3), 0);
    assert_eq!(word_boundary_before("hello", -4), 0);
    assert_eq!(word_boundary_before("a\u{2003}b", 5), 4);
    assert_eq!(word_boundary_before("\u{e4}", 1), 1);
}

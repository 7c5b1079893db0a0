use shell_hub::command::Command;
use shell_hub::dispatch::{dispatch, Effect, InputEvent};

fn command(name: &str) -> Command {
    Command { name: name.to_string(), payload: None }
}

#[test]
fn unknown_menu_id_is_noop() {
    for present in [false, true] {
        let effects = dispatch(&InputEvent::MenuSelect("settings".to_string()), present);
        assert_eq!(effects, Vec::new());
    }
}

#[test]
fn empty_menu_id_is_noop() {
    let effects = dispatch(&InputEvent::MenuSelect(String::new()), true);
    assert!(effects.is_empty());
}

#[test]
fn menu_ids_are_case_sensitive() {
    let effects = dispatch(&InputEvent::MenuSelect("Open".to_string()), true);
    assert!(effects.is_empty());
}

#[test]
fn open_without_window_does_nothing() {
    let effects = dispatch(&InputEvent::MenuSelect("open".to_string()), false);
    assert!(effects.is_empty());
}

#[test]
fn open_with_window_shows_then_focuses() {
    let effects = dispatch(&InputEvent::MenuSelect("open".to_string()), true);
    assert_eq!(effects, vec![Effect::ShowMainWindow, Effect::FocusMainWindow]);
}

#[test]
fn hands_free_emits_exactly_toggle() {
    for present in [false, true] {
        let effects = dispatch(&InputEvent::MenuSelect("hands_free".to_string()), present);
        assert_eq!(effects, vec![Effect::Emit(command("hands_free:toggle"))]);
    }
}

#[test]
fn mute_emits_exactly_audio_mute() {
    for present in [false, true] {
        let effects = dispatch(&InputEvent::MenuSelect("mute".to_string()), present);
        assert_eq!(effects, vec![Effect::Emit(command("audio:mute"))]);
    }
}

#[test]
fn model_picker_emits_command_bar_open() {
    let effects = dispatch(&InputEvent::MenuSelect("model_picker".to_string()), true);
    assert_eq!(effects, vec![Effect::Emit(command("command_bar:open"))]);
}

#[test]
fn hotkey_and_model_picker_are_equivalent() {
    for present in [false, true] {
        let by_menu = dispatch(&InputEvent::MenuSelect("model_picker".to_string()), present);
        let by_hotkey = dispatch(&InputEvent::HotkeyPress, present);
        assert_eq!(by_menu, by_hotkey);
        assert_eq!(by_hotkey, vec![Effect::Emit(command("command_bar:open"))]);
    }
}

#[test]
fn quit_exits_with_status_zero() {
    for present in [false, true] {
        let effects = dispatch(&InputEvent::MenuSelect("quit".to_string()), present);
        assert_eq!(effects, vec![Effect::Exit(0)]);
    }
}

#[test]
fn emitted_commands_carry_no_payload() {
    let inputs = ["hands_free", "mute", "model_picker"];
    for id in inputs {
        let effects = dispatch(&InputEvent::MenuSelect(id.to_string()), true);
        assert_eq!(effects.len(), 1);
        match &effects[0] {
            Effect::Emit(c) => assert_eq!(c.payload, None),
            other => panic!("expected an emission, got {:?}", other),
        }
    }
}

use shell_hub::channel::CommandChannel;
use shell_hub::command::Command;
use shell_hub::dispatch::{dispatch, InputEvent};

fn command(name: &str) -> Command {
    Command { name: name.to_string(), payload: None }
}

#[test]
fn emit_with_receiver_is_observed() {
    let mut channel = CommandChannel::new(true);
    channel.emit(command("audio:mute"));
    assert_eq!(channel.observed, vec![command("audio:mute")]);
}

#[test]
fn emit_without_receiver_is_dropped() {
    let mut channel = CommandChannel::new(false);
    channel.emit(command("audio:mute"));
    channel.emit(command("command_bar:open"));
    assert!(channel.observed.is_empty());
}

#[test]
fn deliver_sends_emissions_in_order() {
    let mut channel = CommandChannel::new(true);
    let first = dispatch(&InputEvent::MenuSelect("hands_free".to_string()), true);
    let second = dispatch(&InputEvent::MenuSelect("mute".to_string()), true);
    channel.deliver(&first);
    channel.deliver(&second);
    assert_eq!(channel.observed, vec![command("hands_free:toggle"), command("audio:mute")]);
}

#[test]
fn deliver_of_window_effects_emits_nothing() {
    let mut channel = CommandChannel::new(true);
    let effects = dispatch(&InputEvent::MenuSelect("open".to_string()), true);
    channel.deliver(&effects);
    assert!(channel.observed.is_empty());
}

#[test]
fn double_hotkey_before_receiver_attaches_is_tolerated() {
    let mut channel = CommandChannel::new(false);
    channel.deliver(&dispatch(&InputEvent::HotkeyPress, false));
    channel.deliver(&dispatch(&InputEvent::HotkeyPress, false));
    assert!(channel.observed.is_empty());
}

#[test]
fn either_serialization_observes_both_commands_whole() {
    let hotkey = dispatch(&InputEvent::HotkeyPress, true);
    let menu = dispatch(&InputEvent::MenuSelect("mute".to_string()), true);

    let mut one_way = CommandChannel::new(true);
    one_way.deliver(&hotkey);
    one_way.deliver(&menu);

    let mut other_way = CommandChannel::new(true);
    other_way.deliver(&menu);
    other_way.deliver(&hotkey);

    assert_eq!(one_way.observed, vec![command("command_bar:open"), command("audio:mute")]);
    assert_eq!(other_way.observed, vec![command("audio:mute"), command("command_bar:open")]);
    for c in &one_way.observed {
        assert!(other_way.observed.contains(c));
    }
    for c in &other_way.observed {
        assert!(one_way.observed.contains(c));
    }
}

//! The command dispatcher: a flat, total mapping from one discrete input
//! event to the effects the shell must perform. Unmatched menu ids are
//! silent no-ops, never a fault.

use vstd::prelude::*;

use crate::command::{
    audio_mute_name, command_bar_open_name, hands_free_toggle_name, spec_named, Command,
    SpecCommand,
};

verus! {

/// Mathematical value of an [`InputEvent`].
pub ghost enum SpecInputEvent {
    /// The tray menu entry with this id was selected.
    MenuSelect { id: Seq<char> },
    /// The global hotkey combination was pressed.
    HotkeyPress,
}

/// One discrete input event, as delivered by a native input surface.
#[derive(Debug, PartialEq, Eq)]
pub enum InputEvent {
    /// The tray menu entry with this id was selected.
    MenuSelect(String),
    /// The global hotkey combination was pressed.
    HotkeyPress,
}

impl View for InputEvent {
    type V = SpecInputEvent;

    open spec fn view(&self) -> SpecInputEvent {
        match self {
            InputEvent::MenuSelect(id) => SpecInputEvent::MenuSelect { id: id@ },
            InputEvent::HotkeyPress => SpecInputEvent::HotkeyPress,
        }
    }
}

/// Mathematical value of an [`Effect`].
pub ghost enum SpecEffect {
    ShowMainWindow,
    FocusMainWindow,
    Emit(SpecCommand),
    Exit(int),
}

/// One effect the shell performs in response to an input event. Window
/// requests and command emissions are best-effort: a failure to carry one
/// out is swallowed, never escalated.
#[derive(Debug, PartialEq, Eq)]
pub enum Effect {
    /// Request that the primary window be shown.
    ShowMainWindow,
    /// Request that the primary window take focus.
    FocusMainWindow,
    /// Emit this command on the channel to the frontend surface.
    Emit(Command),
    /// Terminate the process with this status.
    Exit(i32),
}

impl View for Effect {
    type V = SpecEffect;

    open spec fn view(&self) -> SpecEffect {
        match self {
            Effect::ShowMainWindow => SpecEffect::ShowMainWindow,
            Effect::FocusMainWindow => SpecEffect::FocusMainWindow,
            Effect::Emit(c) => SpecEffect::Emit(c@),
            Effect::Exit(status) => SpecEffect::Exit(*status as int),
        }
    }
}

impl DeepView for Effect {
    type V = SpecEffect;

    open spec fn deep_view(&self) -> SpecEffect {
        self@
    }
}

/// The dispatch table for menu selections:
/// `open` turns into a show request then a focus request when the main
/// window is present and into nothing when it is absent; `hands_free`,
/// `mute` and `model_picker` each emit their command; `quit` exits with
/// status 0; every other id is a no-op.
pub open spec fn spec_dispatch_menu(id: Seq<char>, main_window_present: bool) -> Seq<SpecEffect> {
    if id == "open"@ {
        if main_window_present {
            seq![SpecEffect::ShowMainWindow, SpecEffect::FocusMainWindow]
        } else {
            Seq::empty()
        }
    } else if id == "hands_free"@ {
        seq![SpecEffect::Emit(spec_named(hands_free_toggle_name()))]
    } else if id == "mute"@ {
        seq![SpecEffect::Emit(spec_named(audio_mute_name()))]
    } else if id == "model_picker"@ {
        seq![SpecEffect::Emit(spec_named(command_bar_open_name()))]
    } else if id == "quit"@ {
        seq![SpecEffect::Exit(0)]
    } else {
        Seq::empty()
    }
}

/// The full dispatch function: a hotkey press emits the command that opens
/// the command bar, a menu selection follows [`spec_dispatch_menu`].
pub open spec fn spec_dispatch(event: SpecInputEvent, main_window_present: bool) -> Seq<
    SpecEffect,
> {
    match event {
        SpecInputEvent::MenuSelect { id } => spec_dispatch_menu(id, main_window_present),
        SpecInputEvent::HotkeyPress => seq![
            SpecEffect::Emit(spec_named(command_bar_open_name())),
        ],
    }
}

/// No effect at all.
fn no_effects() -> (effects: Vec<Effect>)
    ensures
        effects.deep_view() == Seq::<SpecEffect>::empty(),
{
    let effects: Vec<Effect> = Vec::new();
    proof {
        assert(effects.deep_view() =~= Seq::<SpecEffect>::empty());
    }
    effects
}

/// Exactly one emission of a payload-free command with the given name.
fn emit_one(name: String) -> (effects: Vec<Effect>)
    ensures
        effects.deep_view() == seq![SpecEffect::Emit(spec_named(name@))],
{
    let mut effects: Vec<Effect> = Vec::new();
    effects.push(Effect::Emit(Command::named(name)));
    proof {
        assert(effects.deep_view() =~= seq![SpecEffect::Emit(spec_named(name@))]);
    }
    effects
}

/// Maps one menu selection to its effects. `main_window_present` says
/// whether the window registry currently resolves the primary window.
pub fn dispatch_menu(id: &String, main_window_present: bool) -> (effects: Vec<Effect>)
    ensures
        effects.deep_view() == spec_dispatch_menu(id@, main_window_present),
{
    if *id == "open".to_owned() {
        if main_window_present {
            let mut effects: Vec<Effect> = Vec::new();
            effects.push(Effect::ShowMainWindow);
            effects.push(Effect::FocusMainWindow);
            proof {
                assert(effects.deep_view() =~= seq![
                    SpecEffect::ShowMainWindow,
                    SpecEffect::FocusMainWindow,
                ]);
            }
            effects
        } else {
            no_effects()
        }
    } else if *id == "hands_free".to_owned() {
        emit_one("hands_free:toggle".to_owned())
    } else if *id == "mute".to_owned() {
        emit_one("audio:mute".to_owned())
    } else if *id == "model_picker".to_owned() {
        emit_one("command_bar:open".to_owned())
    } else if *id == "quit".to_owned() {
        let mut effects: Vec<Effect> = Vec::new();
        effects.push(Effect::Exit(0));
        proof {
            assert(effects.deep_view() =~= seq![SpecEffect::Exit(0)]);
        }
        effects
    } else {
        no_effects()
    }
}

/// Maps one input event to the effects the shell must perform, in order.
/// This is the single entry point both native input surfaces feed.
pub fn dispatch(event: &InputEvent, main_window_present: bool) -> (effects: Vec<Effect>)
    ensures
        effects.deep_view() == spec_dispatch(event@, main_window_present),
{
    match event {
        InputEvent::MenuSelect(id) => dispatch_menu(id, main_window_present),
        InputEvent::HotkeyPress => emit_one("command_bar:open".to_owned()),
    }
}

} // verus!

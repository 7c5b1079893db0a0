//! Commands: the values the shell delivers to the frontend surface.

use vstd::prelude::*;

verus! {

/// Mathematical value of a [`Command`]: its name and optional payload.
pub ghost struct SpecCommand {
    pub name: Seq<char>,
    pub payload: Option<Seq<char>>,
}

/// A notification for the frontend surface. A command is a value: it
/// carries no identity beyond its name and optional payload, and it is
/// delivered at most once per triggering event.
#[derive(Debug, PartialEq, Eq)]
pub struct Command {
    pub name: String,
    pub payload: Option<String>,
}

impl View for Command {
    type V = SpecCommand;

    open spec fn view(&self) -> SpecCommand {
        SpecCommand { name: self.name@, payload: self.payload.deep_view() }
    }
}

impl DeepView for Command {
    type V = SpecCommand;

    open spec fn deep_view(&self) -> SpecCommand {
        self@
    }
}

/// A payload-free command with the given name.
pub open spec fn spec_named(name: Seq<char>) -> SpecCommand {
    SpecCommand { name, payload: None }
}

/// Name of the command that asks the frontend to toggle hands-free mode.
pub open spec fn hands_free_toggle_name() -> Seq<char> {
    "hands_free:toggle"@
}

/// Name of the command that asks the frontend to mute audio.
pub open spec fn audio_mute_name() -> Seq<char> {
    "audio:mute"@
}

/// Name of the command that asks the frontend to open its command bar.
pub open spec fn command_bar_open_name() -> Seq<char> {
    "command_bar:open"@
}

impl Clone for Command {
    /// A clone is the same value: same name, same payload.
    fn clone(&self) -> (c: Command)
        ensures
            c == *self,
    {
        Command {
            name: self.name.clone(),
            payload: match &self.payload {
                Some(p) => Some(p.clone()),
                None => None,
            },
        }
    }
}

impl Command {
    /// A payload-free command with the given name.
    pub fn named(name: String) -> (c: Command)
        ensures
            c@ == spec_named(name@),
    {
        Command { name, payload: None }
    }
}

} // verus!

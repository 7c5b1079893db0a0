//! The single system-wide hotkey. Exactly one binding exists: registered
//! once at startup, alive for the process lifetime, with no unregistration
//! path. A press is delivered to the dispatcher as a hotkey event.

use vstd::prelude::*;

verus! {

/// The canonical key-combination the shell claims system-wide.
pub open spec fn spec_hotkey_combination() -> Seq<char> {
    "Alt+Space"@
}

/// The key combination to register for the global hotkey.
pub fn hotkey_combination() -> (s: String)
    ensures
        s@ == spec_hotkey_combination(),
{
    "Alt+Space".to_owned()
}

} // verus!

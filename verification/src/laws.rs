//! The shell's guarantees, stated against the dispatch table and the
//! channel model and proved once and for all.

use vstd::prelude::*;
use vstd::seq_lib::lemma_multiset_commutative;

use crate::channel::spec_emissions;
use crate::command::{audio_mute_name, hands_free_toggle_name, spec_named, SpecCommand};
use crate::dispatch::{spec_dispatch, SpecEffect, SpecInputEvent};
use crate::menu::spec_menu_model;

verus! {

/// The menu identifiers with a case of their own in the dispatch table.
pub open spec fn known_menu_id(id: Seq<char>) -> bool {
    ||| id == "open"@
    ||| id == "hands_free"@
    ||| id == "mute"@
    ||| id == "model_picker"@
    ||| id == "quit"@
}

/// The five dispatch keys are pairwise distinct character sequences, so
/// the dispatch table's if-cascade tests them in any order with the same
/// outcome.
pub proof fn lemma_dispatch_keys_distinct()
    ensures
        "open"@ != "hands_free"@,
        "open"@ != "mute"@,
        "open"@ != "model_picker"@,
        "open"@ != "quit"@,
        "hands_free"@ != "mute"@,
        "hands_free"@ != "model_picker"@,
        "hands_free"@ != "quit"@,
        "mute"@ != "model_picker"@,
        "mute"@ != "quit"@,
        "model_picker"@ != "quit"@,
{
    reveal_strlit("open");
    reveal_strlit("hands_free");
    reveal_strlit("mute");
    reveal_strlit("model_picker");
    reveal_strlit("quit");
    assert("open"@.len() == 4);
    assert("hands_free"@.len() == 10);
    assert("mute"@.len() == 4);
    assert("model_picker"@.len() == 12);
    assert("quit"@.len() == 4);
    assert("open"@[0] == 'o');
    assert("mute"@[0] == 'm');
    assert("quit"@[0] == 'q');
}

/// Selecting a menu entry whose id has no case of its own is a silent
/// no-op: no emission, no window action, no exit.
pub proof fn lemma_unknown_menu_id_is_noop(id: Seq<char>, main_window_present: bool)
    requires
        !known_menu_id(id),
    ensures
        spec_dispatch(SpecInputEvent::MenuSelect { id }, main_window_present) == Seq::<
            SpecEffect,
        >::empty(),
{
}

/// Selecting `open` while no main window is registered does nothing at
/// all: in particular, nothing is emitted.
pub proof fn lemma_open_without_window_is_silent()
    ensures
        spec_dispatch(SpecInputEvent::MenuSelect { id: "open"@ }, false) == Seq::<
            SpecEffect,
        >::empty(),
{
}

/// Selecting `open` while the main window is registered requests exactly
/// one show and then exactly one focus, in that order and nothing else.
pub proof fn lemma_open_with_window_shows_then_focuses()
    ensures
        spec_dispatch(SpecInputEvent::MenuSelect { id: "open"@ }, true) == seq![
            SpecEffect::ShowMainWindow,
            SpecEffect::FocusMainWindow,
        ],
{
}

/// Selecting `hands_free` emits exactly one command, named
/// `hands_free:toggle`, with no payload — whether or not a window is
/// registered.
pub proof fn lemma_hands_free_emits_exactly_toggle(main_window_present: bool)
    ensures
        spec_dispatch(SpecInputEvent::MenuSelect { id: "hands_free"@ }, main_window_present)
            == seq![SpecEffect::Emit(spec_named(hands_free_toggle_name()))],
        spec_emissions(
            spec_dispatch(SpecInputEvent::MenuSelect { id: "hands_free"@ }, main_window_present),
        ) == seq![spec_named(hands_free_toggle_name())],
{
    lemma_dispatch_keys_distinct();
    crate::channel::lemma_emissions_single_emit(spec_named(hands_free_toggle_name()));
}

/// Selecting `mute` emits exactly one command, named `audio:mute`, with no
/// payload.
pub proof fn lemma_mute_emits_exactly_audio_mute(main_window_present: bool)
    ensures
        spec_dispatch(SpecInputEvent::MenuSelect { id: "mute"@ }, main_window_present) == seq![
            SpecEffect::Emit(spec_named(audio_mute_name())),
        ],
        spec_emissions(
            spec_dispatch(SpecInputEvent::MenuSelect { id: "mute"@ }, main_window_present),
        ) == seq![spec_named(audio_mute_name())],
{
    lemma_dispatch_keys_distinct();
    crate::channel::lemma_emissions_single_emit(spec_named(audio_mute_name()));
}

/// The `model_picker` menu entry and the global hotkey are observably the
/// same input: they dispatch to identical effects, whatever the window
/// state.
pub proof fn lemma_hotkey_matches_model_picker(main_window_present: bool)
    ensures
        spec_dispatch(SpecInputEvent::HotkeyPress, main_window_present) == spec_dispatch(
            SpecInputEvent::MenuSelect { id: "model_picker"@ },
            main_window_present,
        ),
{
    lemma_dispatch_keys_distinct();
}

/// Selecting `quit` asks for process termination with status 0, and for
/// nothing else: no emission and no window action accompany it.
pub proof fn lemma_quit_exits_cleanly(main_window_present: bool)
    ensures
        spec_dispatch(SpecInputEvent::MenuSelect { id: "quit"@ }, main_window_present) == seq![
            SpecEffect::Exit(0),
        ],
{
    lemma_dispatch_keys_distinct();
}

/// Termination is never reachable by accident: the only input whose
/// dispatch contains an exit effect is the `quit` menu entry, and the
/// status it carries is always 0.
pub proof fn lemma_exit_only_from_quit(
    event: SpecInputEvent,
    main_window_present: bool,
    i: int,
    status: int,
)
    requires
        0 <= i < spec_dispatch(event, main_window_present).len(),
        spec_dispatch(event, main_window_present)[i] == SpecEffect::Exit(status),
    ensures
        event == (SpecInputEvent::MenuSelect { id: "quit"@ }),
        status == 0,
{
}

/// Every id the menu model exposes has a case of its own in the dispatch
/// table: adding the model to the tray can never produce an input the
/// dispatcher treats as unknown.
pub proof fn lemma_menu_ids_have_dispatch_cases()
    ensures
        forall|i: int|
            0 <= i < spec_menu_model().len() ==> known_menu_id(#[trigger] spec_menu_model()[i].id),
{
}

/// The menu ids are pairwise distinct, so a menu selection identifies one
/// entry — and hence one dispatch case — unambiguously.
pub proof fn lemma_menu_ids_distinct()
    ensures
        forall|i: int, j: int|
            0 <= i < spec_menu_model().len() && 0 <= j < spec_menu_model().len() && i != j
                ==> #[trigger] spec_menu_model()[i].id != #[trigger] spec_menu_model()[j].id,
{
    lemma_dispatch_keys_distinct();
}

/// Two events delivered near-simultaneously from the two native sources
/// are serialized by the channel in one order or the other. Either order
/// extends the observed log by whole command values only: the same
/// commands are observed overall, and every command of either dispatch is
/// present, intact, in both serializations.
pub proof fn lemma_concurrent_dispatches_serialize(
    base: Seq<SpecCommand>,
    first: SpecInputEvent,
    second: SpecInputEvent,
    first_present: bool,
    second_present: bool,
)
    ensures
        ({
            let a = spec_emissions(spec_dispatch(first, first_present));
            let b = spec_emissions(spec_dispatch(second, second_present));
            &&& ((base + a) + b).to_multiset() == ((base + b) + a).to_multiset()
            &&& forall|i: int|
                0 <= i < a.len() ==> ((base + a) + b).contains(#[trigger] a[i]) && ((base + b)
                    + a).contains(a[i])
            &&& forall|i: int|
                0 <= i < b.len() ==> ((base + a) + b).contains(#[trigger] b[i]) && ((base + b)
                    + a).contains(b[i])
        }),
{
    broadcast use vstd::multiset::group_multiset_axioms;

    let a = spec_emissions(spec_dispatch(first, first_present));
    let b = spec_emissions(spec_dispatch(second, second_present));
    lemma_multiset_commutative(base + a, b);
    lemma_multiset_commutative(base, a);
    lemma_multiset_commutative(base + b, a);
    lemma_multiset_commutative(base, b);
    assert(((base + a) + b).to_multiset() =~= ((base + b) + a).to_multiset());
    assert forall|i: int|
        0 <= i < a.len() implies ((base + a) + b).contains(#[trigger] a[i]) && ((base + b)
        + a).contains(a[i]) by {
        assert(((base + a) + b)[base.len() + i] == a[i]);
        assert(((base + b) + a)[base.len() + b.len() + i] == a[i]);
    }
    assert forall|i: int|
        0 <= i < b.len() implies ((base + a) + b).contains(#[trigger] b[i]) && ((base + b)
        + a).contains(b[i]) by {
        assert(((base + a) + b)[base.len() + a.len() + i] == b[i]);
        assert(((base + b) + a)[base.len() + i] == b[i]);
    }
}

} // verus!

//! The command channel: the one-way, fire-and-forget notification path
//! from the shell to the frontend surface. An emission with no receiver
//! attached is dropped — not queued, not retried — and delivery reports
//! no success or failure to the emitter.

use vstd::prelude::*;

use crate::command::{Command, SpecCommand};
use crate::dispatch::{Effect, SpecEffect};

verus! {

/// The commands an effect sequence hands to the channel, in order; window
/// requests and exits emit nothing.
pub open spec fn spec_emissions(effects: Seq<SpecEffect>) -> Seq<SpecCommand>
    decreases effects.len(),
{
    if effects.len() == 0 {
        Seq::empty()
    } else {
        spec_emissions(effects.drop_last()) + match effects.last() {
            SpecEffect::Emit(c) => seq![c],
            _ => Seq::<SpecCommand>::empty(),
        }
    }
}

/// An effect sequence consisting of one emission hands the channel exactly
/// that one command.
pub proof fn lemma_emissions_single_emit(c: SpecCommand)
    ensures
        spec_emissions(seq![SpecEffect::Emit(c)]) == seq![c],
{
    let effects = seq![SpecEffect::Emit(c)];
    assert(effects.last() == SpecEffect::Emit(c));
    assert(effects.drop_last() =~= Seq::<SpecEffect>::empty());
    assert(spec_emissions(Seq::<SpecEffect>::empty()) == Seq::<SpecCommand>::empty());
    assert(spec_emissions(effects) =~= seq![c]);
}

/// The channel as the frontend surface observes it: whether a receiver is
/// attached, and the sequence of commands the receiver has seen. Emission
/// appends whole command values, so two emitters serialized in either
/// order can never leave a partial command in the log.
pub struct CommandChannel {
    pub receiver_attached: bool,
    pub observed: Vec<Command>,
}

impl CommandChannel {
    /// A channel with an empty log.
    pub fn new(receiver_attached: bool) -> (c: CommandChannel)
        ensures
            c.receiver_attached == receiver_attached,
            c.observed.deep_view() == Seq::<SpecCommand>::empty(),
    {
        let c = CommandChannel { receiver_attached, observed: Vec::new() };
        proof {
            assert(c.observed.deep_view() =~= Seq::<SpecCommand>::empty());
        }
        c
    }

    /// Fire-and-forget emission: with a receiver attached the command is
    /// observed after everything observed before; with none it is dropped.
    pub fn emit(&mut self, command: Command)
        ensures
            final(self).receiver_attached == old(self).receiver_attached,
            final(self).observed.deep_view() == if old(self).receiver_attached {
                old(self).observed.deep_view().push(command@)
            } else {
                old(self).observed.deep_view()
            },
    {
        if self.receiver_attached {
            self.observed.push(command);
            proof {
                assert(self.observed.deep_view() =~= old(self).observed.deep_view().push(
                    command@,
                ));
            }
        }
    }

    /// Performs the channel side of an effect sequence: every emitted
    /// command goes out on the channel, in order; window requests and
    /// exits are for the shell itself and leave the channel alone.
    pub fn deliver(&mut self, effects: &Vec<Effect>)
        ensures
            final(self).receiver_attached == old(self).receiver_attached,
            final(self).observed.deep_view() == if old(self).receiver_attached {
                old(self).observed.deep_view() + spec_emissions(effects.deep_view())
            } else {
                old(self).observed.deep_view()
            },
    {
        let ghost base = self.observed.deep_view();
        let mut i: usize = 0;
        while i < effects.len()
            invariant
                i <= effects.len(),
                self.receiver_attached == old(self).receiver_attached,
                base == old(self).observed.deep_view(),
                self.observed.deep_view() == if old(self).receiver_attached {
                    base + spec_emissions(effects.deep_view().take(i as int))
                } else {
                    base
                },
            decreases effects.len() - i,
        {
            proof {
                assert(effects.deep_view().take(i + 1).drop_last() =~= effects.deep_view().take(
                    i as int,
                ));
                assert(effects.deep_view().take(i + 1).last() == effects.deep_view()[i as int]);
            }
            match &effects[i] {
                Effect::Emit(command) => {
                    self.emit(command.clone());
                    proof {
                        if self.receiver_attached {
                            assert(self.observed.deep_view() =~= base + spec_emissions(
                                effects.deep_view().take(i + 1),
                            ));
                        }
                    }
                },
                _ => {
                    proof {
                        if self.receiver_attached {
                            assert(self.observed.deep_view() =~= base + spec_emissions(
                                effects.deep_view().take(i + 1),
                            ));
                        }
                    }
                },
            }
            i = i + 1;
        }
        proof {
            assert(effects.deep_view().take(effects.len() as int) =~= effects.deep_view());
        }
    }
}

} // verus!

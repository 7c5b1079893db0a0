//! The window handle registry: a process-wide lookup from a logical window
//! identifier to the live window's handle. The platform runtime owns the
//! windows themselves; the registry only resolves identifiers, and an
//! absent identifier is a first-class, non-fatal outcome.

use vstd::prelude::*;

verus! {

/// Mathematical value of a [`WindowBinding`].
pub ghost struct SpecWindowBinding {
    pub id: Seq<char>,
    pub handle: u64,
}

/// One binding from a logical identifier to a window handle. The handle
/// stands for the live window object, which only the platform can act on.
#[derive(Debug, PartialEq, Eq)]
pub struct WindowBinding {
    pub id: String,
    pub handle: u64,
}

impl View for WindowBinding {
    type V = SpecWindowBinding;

    open spec fn view(&self) -> SpecWindowBinding {
        SpecWindowBinding { id: self.id@, handle: self.handle }
    }
}

impl DeepView for WindowBinding {
    type V = SpecWindowBinding;

    open spec fn deep_view(&self) -> SpecWindowBinding {
        self@
    }
}

/// The handle the earliest binding with this identifier resolves to, if
/// any binding carries it.
pub open spec fn spec_lookup(bindings: Seq<SpecWindowBinding>, id: Seq<char>) -> Option<u64>
    decreases bindings.len(),
{
    if bindings.len() == 0 {
        None
    } else if bindings.first().id == id {
        Some(bindings.first().handle)
    } else {
        spec_lookup(bindings.drop_first(), id)
    }
}

/// A later binding never shadows an earlier one: after a push, every
/// identifier that already resolved still resolves to the same handle, and
/// the pushed identifier resolves to the new handle only if it was absent.
pub proof fn lemma_lookup_push(bindings: Seq<SpecWindowBinding>, b: SpecWindowBinding, id: Seq<char>)
    ensures
        spec_lookup(bindings.push(b), id) == if spec_lookup(bindings, id) is Some {
            spec_lookup(bindings, id)
        } else if b.id == id {
            Some(b.handle)
        } else {
            None::<u64>
        },
    decreases bindings.len(),
{
    if bindings.len() == 0 {
        assert(bindings.push(b).first() == b);
        assert(bindings.push(b).drop_first() =~= Seq::<SpecWindowBinding>::empty());
        assert(spec_lookup(Seq::<SpecWindowBinding>::empty(), id) is None);
    } else {
        assert(bindings.push(b).first() == bindings.first());
        assert(bindings.push(b).drop_first() =~= bindings.drop_first().push(b));
        lemma_lookup_push(bindings.drop_first(), b, id);
    }
}

/// The logical identifier of the single primary application window.
pub open spec fn spec_main_window_id() -> Seq<char> {
    "main"@
}

/// The logical identifier of the single primary application window.
pub fn main_window_id() -> (s: String)
    ensures
        s@ == spec_main_window_id(),
{
    "main".to_owned()
}

/// The registry itself: the bindings, in registration order.
#[derive(Debug, PartialEq, Eq)]
pub struct WindowRegistry {
    pub bindings: Vec<WindowBinding>,
}

impl WindowRegistry {
    /// A registry with no windows: every lookup comes back empty.
    pub fn new() -> (r: WindowRegistry)
        ensures
            r.bindings.deep_view() == Seq::<SpecWindowBinding>::empty(),
            forall|id: Seq<char>| spec_lookup(r.bindings.deep_view(), id) is None,
    {
        let r = WindowRegistry { bindings: Vec::new() };
        proof {
            assert(r.bindings.deep_view() =~= Seq::<SpecWindowBinding>::empty());
        }
        r
    }

    /// Records that the window with this handle answers to this identifier.
    /// Identifiers that already resolved keep their handle.
    pub fn register(&mut self, id: String, handle: u64)
        ensures
            final(self).bindings.deep_view() == old(self).bindings.deep_view().push(
                (SpecWindowBinding { id: id@, handle }),
            ),
            spec_lookup(final(self).bindings.deep_view(), id@) is Some,
            forall|other: Seq<char>|
                spec_lookup(old(self).bindings.deep_view(), other) is Some
                    ==> spec_lookup(final(self).bindings.deep_view(), other) == spec_lookup(
                    old(self).bindings.deep_view(),
                    other,
                ),
    {
        let ghost b = SpecWindowBinding { id: id@, handle };
        self.bindings.push(WindowBinding { id, handle });
        proof {
            assert(self.bindings.deep_view() =~= old(self).bindings.deep_view().push(b));
            lemma_lookup_push(old(self).bindings.deep_view(), b, b.id);
            assert forall|other: Seq<char>|
                spec_lookup(old(self).bindings.deep_view(), other) is Some implies spec_lookup(
                self.bindings.deep_view(),
                other,
            ) == spec_lookup(old(self).bindings.deep_view(), other) by {
                lemma_lookup_push(old(self).bindings.deep_view(), b, other);
            }
        }
    }

    /// Resolves a logical identifier to its handle; `None` when no window
    /// answers to it.
    pub fn get(&self, id: &String) -> (r: Option<u64>)
        ensures
            r == spec_lookup(self.bindings.deep_view(), id@),
    {
        let ghost all = self.bindings.deep_view();
        proof {
            assert(all.skip(0) =~= all);
        }
        let mut i: usize = 0;
        while i < self.bindings.len()
            invariant
                i <= self.bindings.len(),
                all == self.bindings.deep_view(),
                spec_lookup(all.skip(i as int), id@) == spec_lookup(all, id@),
            decreases self.bindings.len() - i,
        {
            if self.bindings[i].id == *id {
                proof {
                    assert(all.skip(i as int).first() == all[i as int]);
                }
                return Some(self.bindings[i].handle);
            }
            proof {
                assert(all.skip(i as int).first() == all[i as int]);
                assert(all.skip(i as int).drop_first() =~= all.skip(i + 1));
            }
            i = i + 1;
        }
        proof {
            assert(all.skip(self.bindings.len() as int) =~= Seq::<SpecWindowBinding>::empty());
        }
        None
    }

    /// Whether the primary application window is currently registered.
    pub fn main_window_present(&self) -> (b: bool)
        ensures
            b == (spec_lookup(self.bindings.deep_view(), spec_main_window_id()) is Some),
    {
        let id = main_window_id();
        self.get(&id).is_some()
    }
}

} // verus!

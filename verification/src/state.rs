//! States: a payload with an identifier.

use vstd::prelude::*;
use crate::ident::{identifier_at, lemma_identifiers_differ, IdAllocator};

verus! {

/// Read access to a payload.
pub trait Content<C> {
    /// The payload that `content` hands out.
    spec fn payload(&self) -> C;

    fn content(&self) -> (c: &C)
        ensures
            *c == self.payload(),
    ;
}

/// A configuration of a machine. A copy keeps the identifier of the state
/// that it was copied from.
#[derive(Clone, Copy, Debug, PartialEq)]
pub struct State<C> {
    pub(crate) id: usize,
    content: C,
}

impl<C> State<C> {
    /// The identifier of this state.
    pub closed spec fn ident(&self) -> usize {
        self.id
    }

    /// The payload of this state.
    pub closed spec fn payload(&self) -> C {
        self.content
    }

    /// Wraps `content` in a state with the next identifier of `ids`.
    pub fn new(ids: &mut IdAllocator, content: C) -> (state: Self)
        ensures
            state.ident() == identifier_at(old(ids).issued()),
            state.payload() == content,
            final(ids).issued() == old(ids).issued() + 1,
    {
        State { id: ids.allocate(), content }
    }

    pub fn content(&self) -> (c: &C)
        ensures
            *c == self.payload(),
    {
        &self.content
    }

    pub fn id(&self) -> (id: usize)
        ensures
            id == self.ident(),
    {
        self.id
    }

    /// Whether `other` is this state: a machine tells states apart by their
    /// identifiers, not by their payloads.
    pub fn same(&self, other: &Self) -> (same: bool)
        ensures
            same == (self.ident() == other.ident()),
    {
        self.id == other.id
    }
}

/// States built from one allocator at different times differ: in their
/// identifiers, and so as values, whatever their payloads. `earlier` and
/// `later` say how many identifiers the allocator had issued before each
/// was built; fewer than a full turn of the counter lies between them.
pub proof fn lemma_states_differ<C>(a: State<C>, earlier: nat, b: State<C>, later: nat)
    requires
        a.ident() == identifier_at(earlier),
        b.ident() == identifier_at(later),
        earlier < later,
        later - earlier <= usize::MAX,
    ensures
        a.ident() != b.ident(),
        a != b,
{
    lemma_identifiers_differ(earlier, later);
}

impl<C> Content<C> for State<C> {
    open spec fn payload(&self) -> C {
        State::payload(self)
    }

    fn content(&self) -> (c: &C) {
        State::content(self)
    }
}

} // verus!

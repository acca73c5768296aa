//! Events: a payload with an identifier.

use vstd::prelude::*;
use crate::ident::{identifier_at, lemma_identifiers_differ, IdAllocator};
use crate::state::Content;

verus! {

/// A stimulus that may move a machine. A copy keeps the identifier of the
/// event that it was copied from.
#[derive(Copy, Clone, Debug)]
pub struct Event<C> {
    pub(crate) id: usize,
    content: C,
}

impl<C> Event<C> {
    /// The identifier of this event.
    pub closed spec fn ident(&self) -> usize {
        self.id
    }

    /// The payload of this event.
    pub closed spec fn payload(&self) -> C {
        self.content
    }

    /// Wraps `content` in an event with the next identifier of `ids`.
    pub fn new(ids: &mut IdAllocator, content: C) -> (event: Self)
        ensures
            event.ident() == identifier_at(old(ids).issued()),
            event.payload() == content,
            final(ids).issued() == old(ids).issued() + 1,
    {
        Event { id: ids.allocate(), content }
    }

    pub fn content(&self) -> (c: &C)
        ensures
            *c == self.payload(),
    {
        &self.content
    }

    pub fn id(&self) -> (id: usize)
        ensures
            id == self.ident(),
    {
        self.id
    }

    /// Whether `other` is this event: a machine tells events apart by their
    /// identifiers, not by their payloads.
    pub fn same(&self, other: &Self) -> (same: bool)
        ensures
            same == (self.ident() == other.ident()),
    {
        self.id == other.id
    }
}

/// Events built from one allocator at different times differ: in their
/// identifiers, and so as values, whatever their payloads. `earlier` and
/// `later` say how many identifiers the allocator had issued before each
/// was built; fewer than a full turn of the counter lies between them.
pub proof fn lemma_events_differ<C>(a: Event<C>, earlier: nat, b: Event<C>, later: nat)
    requires
        a.ident() == identifier_at(earlier),
        b.ident() == identifier_at(later),
        earlier < later,
        later - earlier <= usize::MAX,
    ensures
        a.ident() != b.ident(),
        a != b,
{
    lemma_identifiers_differ(earlier, later);
}

impl<C> Content<C> for Event<C> {
    open spec fn payload(&self) -> C {
        Event::payload(self)
    }

    fn content(&self) -> (c: &C) {
        Event::content(self)
    }
}

} // verus!

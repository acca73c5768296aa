//! Identifiers for states and events.

use vstd::prelude::*;

verus! {

/// The identifier that an allocator hands out as its `n`-th one, counting
/// from zero. The counter has the width of a `usize` and wraps around.
pub open spec fn identifier_at(n: nat) -> usize {
    (n % (usize::MAX as nat + 1)) as usize
}

/// A source of identifiers. Keep one for states and one for events:
/// identifiers are unique within one allocator, not across two.
pub struct IdAllocator {
    next: usize,
    issued: Ghost<nat>,
}

impl IdAllocator {
    #[verifier::type_invariant]
    spec fn inv(self) -> bool {
        self.next == identifier_at(self.issued@)
    }

    /// How many identifiers this allocator has handed out so far.
    pub closed spec fn issued(&self) -> nat {
        self.issued@
    }

    /// An allocator that has handed out nothing yet.
    pub fn new() -> (ids: Self)
        ensures
            ids.issued() == 0,
    {
        IdAllocator { next: 0, issued: Ghost(0) }
    }

    /// Hands out the next identifier.
    pub fn allocate(&mut self) -> (id: usize)
        ensures
            id == identifier_at(old(self).issued()),
            final(self).issued() == old(self).issued() + 1,
    {
        proof {
            use_type_invariant(&*self);
        }
        let id: usize = self.next;
        let ghost count: nat = self.issued@ + 1;
        let next: usize = if id == usize::MAX {
            0
        } else {
            id + 1
        };
        assert(next == identifier_at(count)) by {
            lemma_successor(self.issued@);
        }
        *self = IdAllocator { next, issued: Ghost(count) };
        id
    }
}

proof fn lemma_successor(n: nat)
    ensures
        identifier_at(n + 1) == if identifier_at(n) == usize::MAX {
            0usize
        } else {
            (identifier_at(n) + 1) as usize
        },
{
    let m: int = usize::MAX as int + 1;
    vstd::arithmetic::div_mod::lemma_fundamental_div_mod(n as int, m);
    vstd::arithmetic::div_mod::lemma_fundamental_div_mod(n as int + 1, m);
    vstd::arithmetic::div_mod::lemma_mod_bound(n as int, m);
    vstd::arithmetic::div_mod::lemma_mod_bound(n as int + 1, m);
    let q: int = n as int / m;
    let r: int = n as int % m;
    if r == m - 1 {
        vstd::arithmetic::div_mod::lemma_fundamental_div_mod_converse(n as int + 1, m, q + 1, 0);
    } else {
        vstd::arithmetic::div_mod::lemma_fundamental_div_mod_converse(n as int + 1, m, q, r + 1);
    }
}

/// Two identifiers from one allocator differ, as long as fewer than a full
/// turn of the counter lies between them.
pub proof fn lemma_identifiers_differ(i: nat, j: nat)
    requires
        i < j,
        j - i <= usize::MAX,
    ensures
        identifier_at(i) != identifier_at(j),
{
    let m: int = usize::MAX as int + 1;
    vstd::arithmetic::div_mod::lemma_fundamental_div_mod(i as int, m);
    vstd::arithmetic::div_mod::lemma_fundamental_div_mod(j as int, m);
    vstd::arithmetic::div_mod::lemma_mod_bound(i as int, m);
    vstd::arithmetic::div_mod::lemma_mod_bound(j as int, m);
    if identifier_at(i) == identifier_at(j) {
        let qi: int = i as int / m;
        let qj: int = j as int / m;
        assert(j - i == m * qj - m * qi);
        assert(m * qj - m * qi == m * (qj - qi)) by (nonlinear_arith);
        assert(qj - qi >= 1 ==> m * (qj - qi) >= m) by (nonlinear_arith)
            requires
                m > 0,
        ;
        assert(qj - qi <= 0 ==> m * (qj - qi) <= 0) by (nonlinear_arith)
            requires
                m > 0,
        ;
    }
}

} // verus!

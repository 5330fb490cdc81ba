use vstd::prelude::*;
use crate::term::{Term, TermModel};

verus! {

/// Hands out blank nodes, each with a number that was never handed out
/// before by the same generator.
pub struct IdGenerator {
    next: u64,
}

impl IdGenerator {
    /// The number that the next blank node will carry.
    pub closed spec fn next_id(&self) -> u64 {
        self.next
    }

    pub fn new() -> (r: IdGenerator)
        ensures
            r.next_id() == 0,
    {
        IdGenerator { next: 0 }
    }

    pub fn peek(&self) -> (r: u64)
        ensures
            r == self.next_id(),
    {
        self.next
    }

    /// A fresh blank node: the numbers handed out grow by one at each call.
    pub fn new_blank_node(&mut self) -> (r: Term)
        requires
            old(self).next_id() < u64::MAX,
        ensures
            r@ == TermModel::Blank(old(self).next_id()),
            final(self).next_id() == old(self).next_id() + 1,
    {
        let n = self.next;
        self.next = n + 1;
        Term::blank(n)
    }
}

} // verus!

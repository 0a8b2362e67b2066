//! Serials: the tokens that tie a dispatched event to what clients later
//! acknowledge.

use vstd::prelude::*;

verus! {

/// A correlation token. A later serial has a greater value.
#[derive(Clone, Copy, Debug, PartialEq, Eq, Structural)]
pub struct Serial {
    pub value: u64,
}

/// The source of serials, handed to every dispatch as part of the state.
///
/// It holds the value of the serial it gives out next, so every serial
/// given out so far is smaller than `peek()`.
#[derive(Clone, Copy, Debug, PartialEq, Eq, Structural)]
pub struct SerialCounter {
    pub next: u64,
}

impl SerialCounter {
    /// A counter whose first serial is 1.
    pub fn new() -> (r: SerialCounter)
        ensures
            r.next == 1,
    {
        SerialCounter { next: 1 }
    }

    /// A counter whose first serial is `first`.
    pub fn starting_at(first: u64) -> (r: SerialCounter)
        ensures
            r.next == first,
    {
        SerialCounter { next: first }
    }

    /// Whether no further serial can be given out.
    pub open spec fn spec_exhausted(&self) -> bool {
        self.next == u64::MAX
    }

    #[verifier::when_used_as_spec(spec_exhausted)]
    pub fn exhausted(&self) -> (r: bool)
        ensures
            r == self.spec_exhausted(),
    {
        self.next == u64::MAX
    }

    /// The serial that the next call of `next_serial` gives out.
    pub fn peek(&self) -> (r: Serial)
        ensures
            r.value == self.next,
    {
        Serial { value: self.next }
    }

    /// Gives out a fresh serial: greater than every one given out before.
    pub fn next_serial(&mut self) -> (r: Serial)
        requires
            !old(self).spec_exhausted(),
        ensures
            r.value == old(self).next,
            final(self).next == old(self).next + 1,
    {
        let value: u64 = self.next;
        self.next = value + 1;
        Serial { value }
    }
}

} // verus!

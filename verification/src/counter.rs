//! The running count of accepted sales.

use vstd::prelude::*;

verus! {

/// Number of sales accepted since start-up. It starts at zero, moves only
/// through [`SaleCounter::increment_and_get`], one step at a time, and is
/// never lowered or reset.
///
/// The counter is a plain value: whoever shares it between tasks guards it
/// so that increments happen one after another.
#[derive(Debug)]
pub struct SaleCounter {
    count: u64,
}

impl View for SaleCounter {
    type V = nat;

    closed spec fn view(&self) -> nat {
        self.count as nat
    }
}

impl SaleCounter {
    /// A counter at zero.
    pub fn new() -> (counter: SaleCounter)
        ensures
            counter@ == 0,
    {
        SaleCounter { count: 0 }
    }

    /// The count so far.
    pub fn value(&self) -> (count: u64)
        ensures
            count == self@,
    {
        self.count
    }

    /// Counts one more sale and returns the count that includes it.
    pub fn increment_and_get(&mut self) -> (total: u64)
        requires
            old(self)@ < u64::MAX,
        ensures
            final(self)@ == old(self)@ + 1,
            total == final(self)@,
    {
        self.count = self.count + 1;
        self.count
    }
}

} // verus!

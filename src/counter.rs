use vstd::prelude::*;

verus! {

/// A click counter: starts at zero and goes up by one on each activation.
pub struct ClickCounter {
    count: u64,
}

impl View for ClickCounter {
    type V = nat;

    closed spec fn view(&self) -> nat {
        self.count as nat
    }
}

impl ClickCounter {
    /// A counter that has seen no activation yet.
    pub fn new() -> (r: ClickCounter)
        ensures
            r@ == 0,
    {
        ClickCounter { count: 0 }
    }

    /// The number of activations so far.
    pub fn count(&self) -> (r: u64)
        ensures
            r == self@,
    {
        self.count
    }

    /// Records one activation.
    pub fn increment(&mut self)
        requires
            old(self)@ < u64::MAX,
        ensures
            final(self)@ == old(self)@ + 1,
    {
        self.count = self.count + 1;
    }
}

} // verus!

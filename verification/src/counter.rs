//! A counter that starts at zero and only ever moves up by one.

use vstd::prelude::*;

verus! {

/// A simple counter.
///
/// The stored value is private, so it can only be reached through `new` and
/// `increment`; it is therefore never negative, and the counter is modelled
/// by a natural number.
pub struct Counter {
    value: i32,
}

impl View for Counter {
    type V = nat;

    closed spec fn view(&self) -> nat {
        self.value as nat
    }
}

impl Counter {
    #[verifier::type_invariant]
    spec fn non_negative(self) -> bool {
        self.value >= 0
    }

    /// Create a new counter starting at zero.
    pub fn new() -> (counter: Self)
        ensures
            counter@ == 0,
    {
        Self { value: 0 }
    }

    /// Increment the counter by one.
    ///
    /// The counter must not already hold the largest value an `i32` can take.
    pub fn increment(&mut self)
        requires
            old(self)@ < i32::MAX,
        ensures
            final(self)@ == old(self)@ + 1,
    {
        proof {
            use_type_invariant(&*self);
        }
        self.value += 1;
    }

    /// Get the current value.
    pub fn get(&self) -> (value: i32)
        ensures
            value == self@,
    {
        proof {
            use_type_invariant(self);
        }
        self.value
    }
}

} // verus!

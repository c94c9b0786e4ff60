//! Tick counts and their two additions.
use vstd::prelude::*;

verus! {

/// One more than the largest tick count: tick sources count modulo this.
pub open spec fn tick_modulus() -> nat {
    0x1_0000_0000_0000_0000
}

/// A count of ticks: how far one reading of a tick source lies after another.
#[derive(Debug, Clone, Copy)]
pub struct Delta(pub u64);

impl View for Delta {
    type V = u64;

    open spec fn view(&self) -> u64 {
        self.0
    }
}

impl Default for Delta {
    fn default() -> (delta: Self)
        ensures
            delta@ == 0,
    {
        Delta(0)
    }
}

impl Delta {
    /// The sum on the modular counter: it wraps past the largest count.
    pub open spec fn wrapped_sum(self, other: Delta) -> Delta {
        Delta(((self@ + other@) % tick_modulus() as int) as u64)
    }

    /// The sum that stops at the largest count.
    pub open spec fn saturated_sum(self, other: Delta) -> Delta {
        Delta(
            if self@ + other@ > u64::MAX {
                u64::MAX
            } else {
                (self@ + other@) as u64
            },
        )
    }

    /// Adds two counts as a tick source would: the sum wraps.
    #[must_use]
    pub fn add(self, other: Self) -> (sum: Self)
        ensures
            sum == self.wrapped_sum(other),
    {
        Delta(self.0.wrapping_add(other.0))
    }

    /// Adds a count to an accumulated one: the sum stops at the largest count.
    #[must_use]
    pub fn sat_add(self, other: Self) -> (sum: Self)
        ensures
            sum == self.saturated_sum(other),
    {
        Delta(self.0.saturating_add(other.0))
    }
}

} // verus!

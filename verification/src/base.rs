//! The timer that every other timer and container is built from.
use crate::arch::get_timer;
use crate::arch::TDesc;
use crate::arch::Value;
use crate::delta::Delta;
use crate::traits::TArch;
use crate::traits::TickValue;
use vstd::prelude::*;

verus! {

/// A reading of the tick source that `S` selects.
pub type Tick<const S: bool> = <TDesc<S> as TArch>::Value;

/// One reading of a tick source, the mark, from which elapsed ticks are counted.
#[derive(Debug, Clone, Copy)]
pub struct BaseTimer<const S: bool> where TDesc<S>: TArch {
    start: Tick<S>,
}

impl<const S: bool> View for BaseTimer<S> where TDesc<S>: TArch {
    type V = Tick<S>;

    /// The mark.
    closed spec fn view(&self) -> Tick<S> {
        self.start
    }
}

impl<const S: bool> Default for BaseTimer<S> where TDesc<S>: TArch {
    /// A timer that was never started.
    fn default() -> (timer: Self)
        ensures
            timer@.is_initial(),
    {
        BaseTimer { start: Tick::<S>::initial() }
    }
}

impl<const S: bool> BaseTimer<S> where TDesc<S>: TArch {
    /// Makes `now` the mark.
    pub fn start_at(&mut self, now: Tick<S>)
        ensures
            final(self)@ == now,
    {
        self.start = now;
    }

    /// The ticks from the mark to `now`.
    pub fn elapsed_delta_at(&self, now: Tick<S>) -> (delta: Delta)
        ensures
            delta == now.spec_since(self@),
    {
        now.since(self.start)
    }

    /// The ticks from the mark to `now`, which becomes the mark.
    pub fn elapsed_delta_and_update_at(&mut self, now: Tick<S>) -> (delta: Delta)
        ensures
            delta == now.spec_since(old(self)@),
            final(self)@ == now,
    {
        self.start.since_and_update(now)
    }

    /// The ticks from the mark to `now`, as a number.
    pub fn elapsed_at(&self, now: Tick<S>) -> (ticks: u64)
        ensures
            ticks == now.spec_since(self@)@,
    {
        self.elapsed_delta_at(now).0
    }

    /// The ticks from the mark to `now`, as a number; `now` becomes the mark.
    pub fn elapsed_and_update_at(&mut self, now: Tick<S>) -> (ticks: u64)
        ensures
            ticks == now.spec_since(old(self)@)@,
            final(self)@ == now,
    {
        self.elapsed_delta_and_update_at(now).0
    }
}

impl BaseTimer<false> {
    /// Reads the portable clock.
    pub fn now() -> (now: Value) {
        get_timer()
    }

    /// Marks the present reading of the clock.
    pub fn start(&mut self) {
        self.start_at(Self::now());
    }

    /// The ticks from the mark to the present reading of the clock.
    pub fn elapsed_delta(&self) -> (delta: Delta)
        ensures
            exists|now: Value| delta == #[trigger] now.spec_since(self@),
    {
        self.elapsed_delta_at(Self::now())
    }

    /// The ticks from the mark to the present reading of the clock, which
    /// becomes the mark.
    pub fn elapsed_delta_and_update(&mut self) -> (delta: Delta)
        ensures
            delta == final(self)@.spec_since(old(self)@),
    {
        self.elapsed_delta_and_update_at(Self::now())
    }

    /// The ticks from the mark to the present reading of the clock, as a number.
    pub fn elapsed(&self) -> (ticks: u64)
        ensures
            exists|now: Value| ticks == (#[trigger] now.spec_since(self@))@,
    {
        self.elapsed_at(Self::now())
    }

    /// The ticks from the mark to the present reading of the clock, as a
    /// number; that reading becomes the mark.
    pub fn elapsed_and_update(&mut self) -> (ticks: u64)
        ensures
            ticks == final(self)@.spec_since(old(self)@)@,
    {
        self.elapsed_and_update_at(Self::now())
    }
}

} // verus!

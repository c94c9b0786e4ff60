//! The single-shot timers: one that reports elapsed ticks, one that records
//! them, and one that also sums what it recorded.
use crate::arch::get_timer;
use crate::arch::TDesc;
use crate::arch::Value;
use crate::base::BaseTimer;
use crate::base::Tick;
use crate::delta::Delta;
use crate::traits::TArch;
use crate::traits::TickValue;
use vstd::prelude::*;

verus! {

/// A timer that reports the ticks since it was started.
#[derive(Debug, Clone, Copy)]
pub struct Timer<const S: bool> where TDesc<S>: TArch {
    base: BaseTimer<S>,
}

impl<const S: bool> View for Timer<S> where TDesc<S>: TArch {
    type V = Tick<S>;

    /// The mark.
    closed spec fn view(&self) -> Tick<S> {
        self.base@
    }
}

impl<const S: bool> Default for Timer<S> where TDesc<S>: TArch {
    /// A timer that was never started.
    fn default() -> (timer: Self)
        ensures
            timer@.is_initial(),
    {
        Timer { base: BaseTimer::default() }
    }
}

impl<const S: bool> Timer<S> where TDesc<S>: TArch {
    /// Makes `now` the mark.
    pub fn start_at(&mut self, now: Tick<S>)
        ensures
            final(self)@ == now,
    {
        self.base.start_at(now);
    }

    /// The ticks from the mark to `now`.
    pub fn elapsed_at(&self, now: Tick<S>) -> (ticks: u64)
        ensures
            ticks == now.spec_since(self@)@,
    {
        self.base.elapsed_at(now)
    }

    /// The ticks from the mark to `now`, which becomes the mark.
    pub fn elapsed_and_update_at(&mut self, now: Tick<S>) -> (ticks: u64)
        ensures
            ticks == now.spec_since(old(self)@)@,
            final(self)@ == now,
    {
        self.base.elapsed_and_update_at(now)
    }
}

impl Timer<false> {
    /// Marks the present reading of the clock.
    pub fn start(&mut self) {
        self.start_at(get_timer());
    }

    /// The ticks from the mark to the present reading of the clock.
    pub fn elapsed(&self) -> (ticks: u64)
        ensures
            exists|now: Value| ticks == (#[trigger] now.spec_since(self@))@,
    {
        self.elapsed_at(get_timer())
    }

    /// The ticks from the mark to the present reading of the clock, which
    /// becomes the mark.
    pub fn elapsed_and_update(&mut self) -> (ticks: u64)
        ensures
            ticks == final(self)@.spec_since(old(self)@)@,
    {
        self.elapsed_and_update_at(get_timer())
    }
}

/// What a `DeltaTimer` holds: the mark of its timer and the ticks recorded at
/// the last stop.
pub struct DeltaTimerView<V> {
    pub mark: V,
    pub delta: Delta,
}

/// A timer that records the ticks between a start and a stop.
#[derive(Debug, Clone, Copy)]
pub struct DeltaTimer<const S: bool> where TDesc<S>: TArch {
    base: BaseTimer<S>,
    delta: Delta,
}

impl<const S: bool> View for DeltaTimer<S> where TDesc<S>: TArch {
    type V = DeltaTimerView<Tick<S>>;

    closed spec fn view(&self) -> Self::V {
        DeltaTimerView { mark: self.base@, delta: self.delta }
    }
}

impl<const S: bool> Default for DeltaTimer<S> where TDesc<S>: TArch {
    /// A timer that was never started and has recorded no ticks.
    fn default() -> (timer: Self)
        ensures
            timer@.mark.is_initial(),
            timer@.delta@ == 0,
    {
        DeltaTimer { base: BaseTimer::default(), delta: Delta::default() }
    }
}

impl<const S: bool> DeltaTimer<S> where TDesc<S>: TArch {
    /// Resets the timer and the recorded ticks.
    pub fn clear(&mut self)
        ensures
            final(self)@.mark.is_initial(),
            final(self)@.delta@ == 0,
    {
        *self = Self::default();
    }

    /// Makes `now` the mark; the recorded ticks stay.
    pub fn start_at(&mut self, now: Tick<S>)
        ensures
            final(self)@.mark == now,
            final(self)@.delta == old(self)@.delta,
    {
        self.base.start_at(now);
    }

    /// The ticks from the mark to `now`; nothing is recorded.
    pub fn delta_at(&mut self, now: Tick<S>) -> (ticks: u64)
        ensures
            ticks == now.spec_since(old(self)@.mark)@,
            final(self)@ == old(self)@,
    {
        self.base.elapsed_delta_at(now).0
    }

    /// Records the ticks from the mark to `now`; the mark stays.
    pub fn stop_at(&mut self, now: Tick<S>)
        ensures
            final(self)@.mark == old(self)@.mark,
            final(self)@.delta == now.spec_since(old(self)@.mark),
    {
        self.delta = self.base.elapsed_delta_at(now);
    }

    /// The recorded ticks.
    pub fn value(&self) -> (ticks: u64)
        ensures
            ticks == self@.delta@,
    {
        self.delta.0
    }
}

impl DeltaTimer<false> {
    /// Marks the present reading of the clock; the recorded ticks stay.
    pub fn start(&mut self)
        ensures
            final(self)@.delta == old(self)@.delta,
    {
        self.start_at(get_timer());
    }

    /// The ticks from the mark to the present reading of the clock; nothing is
    /// recorded.
    pub fn delta(&mut self) -> (ticks: u64)
        ensures
            exists|now: Value| ticks == (#[trigger] now.spec_since(old(self)@.mark))@,
            final(self)@ == old(self)@,
    {
        self.delta_at(get_timer())
    }

    /// Records the ticks from the mark to the present reading of the clock; the
    /// mark stays.
    pub fn stop(&mut self)
        ensures
            final(self)@.mark == old(self)@.mark,
            exists|now: Value| final(self)@.delta == #[trigger] now.spec_since(old(self)@.mark),
    {
        self.stop_at(get_timer());
    }
}

/// What an `AccTimer` holds: the mark of its timer, the ticks recorded at the
/// last stop, and the sum of the ticks recorded at every stop.
pub struct AccTimerView<V> {
    pub mark: V,
    pub delta: Delta,
    pub acc: Delta,
}

impl<V: TickValue> AccTimerView<V> {
    /// The ticks from the mark to `now` are recorded and added to the sum,
    /// which stops at the largest tick count; the mark stays.
    pub open spec fn stop(self, now: V) -> Self {
        AccTimerView {
            mark: self.mark,
            delta: now.spec_since(self.mark),
            acc: self.acc.saturated_sum(now.spec_since(self.mark)),
        }
    }
}

/// A timer that records the ticks between a start and a stop, and sums them
/// over every stop.
#[derive(Debug, Clone, Copy)]
pub struct AccTimer<const S: bool> where TDesc<S>: TArch {
    base: BaseTimer<S>,
    delta: Delta,
    acc: Delta,
}

impl<const S: bool> View for AccTimer<S> where TDesc<S>: TArch {
    type V = AccTimerView<Tick<S>>;

    closed spec fn view(&self) -> Self::V {
        AccTimerView { mark: self.base@, delta: self.delta, acc: self.acc }
    }
}

impl<const S: bool> Default for AccTimer<S> where TDesc<S>: TArch {
    /// A timer that was never started, has recorded no ticks and has summed
    /// none.
    fn default() -> (timer: Self)
        ensures
            timer@.mark.is_initial(),
            timer@.delta@ == 0,
            timer@.acc@ == 0,
    {
        AccTimer { base: BaseTimer::default(), delta: Delta::default(), acc: Delta::default() }
    }
}

impl<const S: bool> AccTimer<S> where TDesc<S>: TArch {
    /// Resets the timer, the recorded ticks and the sum.
    pub fn clear(&mut self)
        ensures
            final(self)@.mark.is_initial(),
            final(self)@.delta@ == 0,
            final(self)@.acc@ == 0,
    {
        *self = Self::default();
    }

    /// Makes `now` the mark; the recorded ticks and the sum stay.
    pub fn start_at(&mut self, now: Tick<S>)
        ensures
            final(self)@.mark == now,
            final(self)@.delta == old(self)@.delta,
            final(self)@.acc == old(self)@.acc,
    {
        self.base.start_at(now);
    }

    /// Records the ticks from the mark to `now` and adds them to the sum.
    pub fn stop_at(&mut self, now: Tick<S>)
        ensures
            final(self)@ == old(self)@.stop(now),
    {
        self.delta = self.base.elapsed_delta_at(now);
        self.acc = self.acc.sat_add(self.delta);
    }

    /// The ticks recorded at the last stop.
    pub fn last_delta(&self) -> (ticks: u64)
        ensures
            ticks == self@.delta@,
    {
        self.delta.0
    }

    /// The sum of the ticks recorded at every stop.
    pub fn acc_value(&self) -> (ticks: u64)
        ensures
            ticks == self@.acc@,
    {
        self.acc.0
    }
}

impl AccTimer<false> {
    /// Marks the present reading of the clock; the recorded ticks and the sum
    /// stay.
    pub fn start(&mut self)
        ensures
            final(self)@.delta == old(self)@.delta,
            final(self)@.acc == old(self)@.acc,
    {
        self.start_at(get_timer());
    }

    /// Records the ticks from the mark to the present reading of the clock and
    /// adds them to the sum.
    pub fn stop(&mut self)
        ensures
            exists|now: Value| final(self)@ == #[trigger] old(self)@.stop(now),
    {
        self.stop_at(get_timer());
    }
}

} // verus!

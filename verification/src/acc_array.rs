//! The accumulator of fixed size: `N` slots that are addressed by index.
use crate::arch::get_timer;
use crate::arch::TDesc;
use crate::arch::Value;
use crate::base::BaseTimer;
use crate::base::Tick;
use crate::traits::lemma_fold_at_ceiling;
use crate::traits::saturated;
use crate::traits::TArch;
use crate::traits::TickValue;
use crate::traits::TraceCount;
use crate::traits::TraceValue;
use vstd::prelude::*;

verus! {

/// What an `AccArray` holds: the mark of its timer, and for each slot the
/// accumulated value and the count.
#[verifier::ext_equal]
pub struct AccArrayView<V, T, C> {
    pub mark: V,
    pub accs: Seq<T>,
    pub cnts: Seq<C>,
}

impl<V: TickValue, T: TraceValue, C: TraceCount> AccArrayView<V, T, C> {
    /// Whether there are `n` slots and nothing was folded into any of them.
    pub open spec fn is_empty(self, n: nat) -> bool {
        &&& self.accs == Seq::new(n, |i: int| T::spec_zero())
        &&& self.cnts == Seq::new(n, |i: int| C::spec_zero())
    }

    /// `now` is the mark.
    pub open spec fn start(self, now: V) -> Self {
        AccArrayView { mark: now, accs: self.accs, cnts: self.cnts }
    }

    /// `ticks` are folded into slot `index`.
    pub open spec fn fold(self, index: int, ticks: u64) -> Self {
        AccArrayView {
            mark: self.mark,
            accs: self.accs.update(index, self.accs[index].spec_sat_add(ticks)),
            cnts: self.cnts.update(index, self.cnts[index].spec_sat_inc()),
        }
    }

    /// The ticks from the mark to `now` are folded into slot `index`; an index
    /// behind the slots changes nothing.
    pub open spec fn acc_n(self, index: int, now: V) -> Self {
        if 0 <= index < self.accs.len() {
            self.fold(index, now.spec_since(self.mark)@)
        } else {
            self
        }
    }

    /// As `acc_n`, and `now` becomes the mark; an index behind the slots
    /// changes nothing, the mark included.
    pub open spec fn acc_n_restart(self, index: int, now: V) -> Self {
        if 0 <= index < self.accs.len() {
            self.fold(index, now.spec_since(self.mark)@).start(now)
        } else {
            self
        }
    }
}

/// Folding into a slot whose value is at its ceiling leaves the value as it is,
/// whatever the reading, and the count still takes the occurrence.
pub proof fn lemma_acc_n_at_ceiling<V: TickValue, T: TraceValue, C: TraceCount>(
    acc: AccArrayView<V, T, C>,
    index: int,
    now: V,
)
    requires
        0 <= index < acc.accs.len(),
        index < acc.cnts.len(),
        acc.accs[index].ticks() == T::ceiling(),
    ensures
        acc.acc_n(index, now).accs[index] == acc.accs[index],
        acc.acc_n_restart(index, now).accs[index] == acc.accs[index],
        acc.acc_n(index, now).cnts[index].count() == saturated(
            acc.cnts[index].count() + 1,
            C::ceiling(),
        ),
        acc.acc_n_restart(index, now).cnts[index].count() == saturated(
            acc.cnts[index].count() + 1,
            C::ceiling(),
        ),
{
    lemma_fold_at_ceiling((acc.accs[index], acc.cnts[index]), now.spec_since(acc.mark)@);
}

/// With and without restart the same ticks are folded into the same slot: the
/// two differ in the mark alone, which the one keeps and the other moves to the
/// reading.
pub proof fn lemma_restart_folds_the_same<V: TickValue, T: TraceValue, C: TraceCount>(
    acc: AccArrayView<V, T, C>,
    index: int,
    now: V,
)
    ensures
        acc.acc_n_restart(index, now).accs == acc.acc_n(index, now).accs,
        acc.acc_n_restart(index, now).cnts == acc.acc_n(index, now).cnts,
        acc.acc_n(index, now).mark == acc.mark,
        0 <= index < acc.accs.len() ==> acc.acc_n_restart(index, now).mark == now,
{
}

/// An index behind the slots changes nothing, with or without restart.
pub proof fn lemma_out_of_range_is_ignored<V: TickValue, T: TraceValue, C: TraceCount>(
    acc: AccArrayView<V, T, C>,
    index: int,
    now: V,
)
    requires
        index >= acc.accs.len(),
    ensures
        acc.acc_n(index, now) == acc,
        acc.acc_n_restart(index, now) == acc,
{
}

/// Accumulated ticks and counts in `N` slots, all measured with one timer.
#[derive(Debug, Clone, Copy)]
pub struct AccArray<
    const S: bool,
    T: TraceValue + Copy,
    C: TraceCount + Copy,
    const N: usize,
> where TDesc<S>: TArch {
    base: BaseTimer<S>,
    accs: [T; N],
    cnts: [C; N],
}

impl<const S: bool, T: TraceValue + Copy, C: TraceCount + Copy, const N: usize> View for AccArray<
    S,
    T,
    C,
    N,
> where TDesc<S>: TArch {
    type V = AccArrayView<Tick<S>, T, C>;

    closed spec fn view(&self) -> Self::V {
        AccArrayView { mark: self.base@, accs: self.accs@, cnts: self.cnts@ }
    }
}

impl<const S: bool, T: TraceValue + Copy, C: TraceCount + Copy, const N: usize> Default for AccArray<
    S,
    T,
    C,
    N,
> where TDesc<S>: TArch {
    /// `N` empty slots, and a timer that was never started.
    fn default() -> (acc: Self)
        ensures
            acc@.mark.is_initial(),
            acc@.is_empty(N as nat),
    {
        let accs = [T::zero();N];
        let cnts = [C::zero();N];
        assert(accs@ =~= Seq::new(N as nat, |i: int| T::spec_zero()));
        assert(cnts@ =~= Seq::new(N as nat, |i: int| C::spec_zero()));
        AccArray { base: BaseTimer::default(), accs, cnts }
    }
}

impl<const S: bool, T: TraceValue + Copy, C: TraceCount + Copy, const N: usize> AccArray<
    S,
    T,
    C,
    N,
> where TDesc<S>: TArch {
    /// Every `AccArray` has `N` values and `N` counts.
    pub proof fn lemma_len(&self)
        ensures
            self@.accs.len() == N,
            self@.cnts.len() == N,
    {
    }

    /// Empties every slot and resets the timer.
    pub fn clear(&mut self)
        ensures
            final(self)@.mark.is_initial(),
            final(self)@.is_empty(N as nat),
    {
        *self = Self::default();
    }

    /// Makes `now` the mark.
    pub fn start_at(&mut self, now: Tick<S>)
        ensures
            final(self)@ == old(self)@.start(now),
    {
        self.base.start_at(now);
    }

    /// Folds `ticks` into slot `index`.
    fn fold(&mut self, index: usize, ticks: u64)
        requires
            index < N,
        ensures
            final(self)@ == old(self)@.fold(index as int, ticks),
    {
        self.accs[index] = self.accs[index].sat_add(ticks);
        self.cnts[index].sat_inc();
    }

    /// Folds the ticks from the mark to `now` into slot `index`; does nothing
    /// where `index` is `N` or more.
    pub fn acc_n_at(&mut self, index: usize, now: Tick<S>)
        ensures
            final(self)@ == old(self)@.acc_n(index as int, now),
    {
        if index < N {
            let ticks: u64 = self.base.elapsed_at(now);
            self.fold(index, ticks);
        }
    }

    /// Folds the ticks from the mark to `now` into slot `index` and makes `now`
    /// the mark; does nothing where `index` is `N` or more.
    pub fn acc_n_restart_at(&mut self, index: usize, now: Tick<S>)
        ensures
            final(self)@ == old(self)@.acc_n_restart(index as int, now),
    {
        if index < N {
            let ticks: u64 = self.base.elapsed_and_update_at(now);
            self.fold(index, ticks);
        }
    }

    /// The accumulated values.
    pub fn accs(&self) -> (accs: &[T; N])
        ensures
            accs@ == self@.accs,
    {
        &self.accs
    }

    /// The counts.
    pub fn cnts(&self) -> (cnts: &[C; N])
        ensures
            cnts@ == self@.cnts,
    {
        &self.cnts
    }
}

impl<T: TraceValue + Copy, C: TraceCount + Copy, const N: usize> AccArray<false, T, C, N> {
    /// Marks the present reading of the clock.
    pub fn start(&mut self)
        ensures
            final(self)@ == old(self)@.start(final(self)@.mark),
    {
        self.start_at(get_timer());
    }

    /// Folds the ticks from the mark to the present reading of the clock into
    /// slot `index`; does nothing where `index` is `N` or more.
    pub fn acc_n(&mut self, index: usize)
        ensures
            exists|now: Value| final(self)@ == #[trigger] old(self)@.acc_n(index as int, now),
    {
        if index < N {
            self.acc_n_at(index, get_timer());
        } else {
            assert(self@ == old(self)@.acc_n(index as int, self@.mark));
        }
    }

    /// Folds the ticks from the mark to the present reading of the clock into
    /// slot `index` and makes that reading the mark; does nothing where `index`
    /// is `N` or more.
    pub fn acc_n_restart(&mut self, index: usize)
        ensures
            final(self)@ == old(self)@.acc_n_restart(index as int, final(self)@.mark),
    {
        if index < N {
            self.acc_n_restart_at(index, get_timer());
        }
    }
}

} // verus!

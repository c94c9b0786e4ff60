//! The accumulator that grows: slots are appended as they are first used, and
//! each episode fills them again from the front.
use crate::arch::get_timer;
use crate::arch::TDesc;
use crate::arch::Value;
use crate::base::BaseTimer;
use crate::base::Tick;
use crate::traits::empty_slot;
use crate::traits::folded;
use crate::traits::lemma_fold_at_ceiling;
use crate::traits::saturated;
use crate::traits::TArch;
use crate::traits::TickValue;
use crate::traits::TraceCount;
use crate::traits::TraceValue;
use vstd::prelude::*;

verus! {

/// What an `AccVec` holds: the mark of its timer, the cursor, and the slots,
/// each an accumulated value with its count.
#[verifier::ext_equal]
pub struct AccVecView<V, T, C> {
    pub mark: V,
    pub cursor: nat,
    pub slots: Seq<(T, C)>,
}

impl<V: TickValue, T: TraceValue, C: TraceCount> AccVecView<V, T, C> {
    /// The cursor lies within the slots or just behind them.
    pub open spec fn wf(self) -> bool {
        self.cursor <= self.slots.len()
    }

    /// The slots that were pushed to since the last start.
    pub open spec fn pushed(self) -> Seq<(T, C)> {
        self.slots.take(self.cursor as int)
    }

    /// A new episode: `now` is the mark and the cursor is back at the front.
    pub open spec fn start(self, now: V) -> Self {
        AccVecView { mark: now, cursor: 0, slots: self.slots }
    }

    /// The ticks from the mark to `now` are folded into slot `index`; an index
    /// behind the slots changes nothing.
    pub open spec fn acc_n(self, index: int, now: V) -> Self {
        if 0 <= index < self.slots.len() {
            AccVecView {
                mark: self.mark,
                cursor: self.cursor,
                slots: self.slots.update(index, folded(self.slots[index], now.spec_since(self.mark)@)),
            }
        } else {
            self
        }
    }

    /// As `acc_n`, and `now` becomes the mark, whatever the index.
    pub open spec fn acc_n_restart(self, index: int, now: V) -> Self {
        AccVecView { mark: now, cursor: self.cursor, slots: self.acc_n(index, now).slots }
    }

    /// The index that the next push uses.
    pub open spec fn next_index(self) -> nat {
        if self.cursor < self.slots.len() {
            self.cursor
        } else {
            self.slots.len()
        }
    }

    /// The ticks from the mark to `now` are folded into the slot at the cursor,
    /// or into a new slot behind the others where the cursor has passed them;
    /// the cursor moves behind that slot.
    pub open spec fn acc_push(self, now: V) -> Self {
        if self.cursor < self.slots.len() {
            AccVecView {
                mark: self.mark,
                cursor: self.cursor + 1,
                slots: self.acc_n(self.cursor as int, now).slots,
            }
        } else {
            AccVecView {
                mark: self.mark,
                cursor: self.slots.len() + 1,
                slots: self.slots.push(folded(empty_slot(), now.spec_since(self.mark)@)),
            }
        }
    }

    /// As `acc_push`, and `now` becomes the mark.
    pub open spec fn acc_push_restart(self, now: V) -> Self {
        AccVecView { mark: now, cursor: self.acc_push(now).cursor, slots: self.acc_push(now).slots }
    }

    /// One push for each of `pushes`, in order: each gives the reading, and
    /// whether the push restarts.
    pub open spec fn acc_pushes(self, pushes: Seq<(bool, V)>) -> Self
        decreases pushes.len(),
    {
        if pushes.len() == 0 {
            self
        } else {
            let before = self.acc_pushes(pushes.drop_last());
            if pushes.last().0 {
                before.acc_push_restart(pushes.last().1)
            } else {
                before.acc_push(pushes.last().1)
            }
        }
    }
}

/// Every operation keeps the cursor within the slots or just behind them.
pub proof fn lemma_wf_is_kept<V: TickValue, T: TraceValue, C: TraceCount>(
    acc: AccVecView<V, T, C>,
    index: int,
    now: V,
)
    requires
        acc.wf(),
    ensures
        acc.start(now).wf(),
        acc.acc_n(index, now).wf(),
        acc.acc_n_restart(index, now).wf(),
        acc.acc_push(now).wf(),
        acc.acc_push_restart(now).wf(),
{
}

/// After a start and `m` pushes, with or without restart, the cursor is at `m`:
/// `m` slots were pushed to, and there are at least `m` slots, the longer of
/// `m` and the number that there were. Another start moves the cursor to the
/// front and keeps every slot.
pub proof fn lemma_pushes_after_start<V: TickValue, T: TraceValue, C: TraceCount>(
    acc: AccVecView<V, T, C>,
    now: V,
    pushes: Seq<(bool, V)>,
    next: V,
)
    ensures
        ({
            let end = acc.start(now).acc_pushes(pushes);
            &&& end.wf()
            &&& end.cursor == pushes.len()
            &&& end.pushed().len() == pushes.len()
            &&& end.slots.len() >= pushes.len()
            &&& end.slots.len() == if acc.slots.len() >= pushes.len() {
                acc.slots.len()
            } else {
                pushes.len()
            }
            &&& end.start(next).cursor == 0
            &&& end.start(next).slots == end.slots
        }),
    decreases pushes.len(),
{
    if pushes.len() > 0 {
        lemma_pushes_after_start(acc, now, pushes.drop_last(), next);
    }
}

/// With and without restart the same ticks are folded into the same slot: the
/// two differ in the mark alone, which the one keeps and the other moves to the
/// reading.
pub proof fn lemma_restart_folds_the_same<V: TickValue, T: TraceValue, C: TraceCount>(
    acc: AccVecView<V, T, C>,
    index: int,
    now: V,
)
    ensures
        acc.acc_n_restart(index, now).slots == acc.acc_n(index, now).slots,
        acc.acc_n_restart(index, now).cursor == acc.acc_n(index, now).cursor,
        acc.acc_n(index, now).mark == acc.mark,
        acc.acc_n_restart(index, now).mark == now,
        acc.acc_push_restart(now).slots == acc.acc_push(now).slots,
        acc.acc_push_restart(now).cursor == acc.acc_push(now).cursor,
        acc.acc_push(now).mark == acc.mark,
        acc.acc_push_restart(now).mark == now,
{
}

/// An index behind the slots changes no slot. Without restart the mark stays
/// too; with restart the reading still becomes the mark, so that a later fold
/// counts from that reading and not from the start before it.
pub proof fn lemma_out_of_range_restarts<V: TickValue, T: TraceValue, C: TraceCount>(
    acc: AccVecView<V, T, C>,
    index: int,
    now: V,
    later: V,
)
    requires
        index >= acc.slots.len(),
    ensures
        acc.acc_n(index, now) == acc,
        acc.acc_n_restart(index, now).slots == acc.slots,
        acc.acc_n_restart(index, now).cursor == acc.cursor,
        acc.acc_n_restart(index, now).mark == now,
        acc.slots.len() > 0 ==> acc.acc_n_restart(index, now).acc_n_restart(0, later).slots[0]
            == folded(acc.slots[0], later.spec_since(now)@),
{
}

/// Folding into a slot whose value is at its ceiling leaves the value as it is,
/// whatever the reading, and the count still takes the occurrence.
pub proof fn lemma_acc_n_at_ceiling<V: TickValue, T: TraceValue, C: TraceCount>(
    acc: AccVecView<V, T, C>,
    index: int,
    now: V,
)
    requires
        0 <= index < acc.slots.len(),
        acc.slots[index].0.ticks() == T::ceiling(),
    ensures
        acc.acc_n(index, now).slots[index].0 == acc.slots[index].0,
        acc.acc_n_restart(index, now).slots[index].0 == acc.slots[index].0,
        acc.acc_n(index, now).slots[index].1.count() == saturated(
            acc.slots[index].1.count() + 1,
            C::ceiling(),
        ),
        acc.acc_n_restart(index, now).slots[index].1.count() == saturated(
            acc.slots[index].1.count() + 1,
            C::ceiling(),
        ),
{
    lemma_fold_at_ceiling(acc.slots[index], now.spec_since(acc.mark)@);
}

/// Accumulated ticks and counts in a growing sequence of slots, all measured
/// with one timer.
#[derive(Debug, Clone)]
pub struct AccVec<const S: bool, T: TraceValue + Copy, C: TraceCount + Copy> where TDesc<S>: TArch {
    base: BaseTimer<S>,
    index: usize,
    acc_cnts: Vec<(T, C)>,
}

impl<const S: bool, T: TraceValue + Copy, C: TraceCount + Copy> View for AccVec<S, T, C> where
    TDesc<S>: TArch,
 {
    type V = AccVecView<Tick<S>, T, C>;

    closed spec fn view(&self) -> Self::V {
        AccVecView { mark: self.base@, cursor: self.index as nat, slots: self.acc_cnts@ }
    }
}

impl<const S: bool, T: TraceValue + Copy, C: TraceCount + Copy> Default for AccVec<S, T, C> where
    TDesc<S>: TArch,
 {
    /// No slots, and a timer that was never started.
    fn default() -> (acc: Self)
        ensures
            acc@.mark.is_initial(),
            acc@.cursor == 0,
            acc@.slots.len() == 0,
    {
        AccVec { base: BaseTimer::default(), index: 0, acc_cnts: Vec::new() }
    }
}

impl<const S: bool, T: TraceValue + Copy, C: TraceCount + Copy> AccVec<S, T, C> where
    TDesc<S>: TArch,
 {
    /// `n` empty slots, and a timer that was never started.
    pub fn with_capacity(n: usize) -> (acc: Self)
        ensures
            acc@.mark.is_initial(),
            acc@.cursor == 0,
            acc@.slots == Seq::new(n as nat, |i: int| empty_slot::<T, C>()),
    {
        let mut acc_cnts: Vec<(T, C)> = Vec::new();
        while acc_cnts.len() < n
            invariant
                acc_cnts.len() <= n,
                acc_cnts@ == Seq::new(acc_cnts.len() as nat, |i: int| empty_slot::<T, C>()),
            decreases n - acc_cnts.len(),
        {
            acc_cnts.push((T::zero(), C::zero()));
        }
        AccVec { base: BaseTimer::default(), index: 0, acc_cnts }
    }

    /// Drops every slot, moves the cursor to the front and resets the timer.
    pub fn clear(&mut self)
        ensures
            final(self)@.mark.is_initial(),
            final(self)@.cursor == 0,
            final(self)@.slots.len() == 0,
    {
        self.base = BaseTimer::default();
        self.index = 0;
        self.acc_cnts.clear();
    }

    /// Starts an episode at the reading `now`.
    pub fn start_at(&mut self, now: Tick<S>)
        ensures
            final(self)@ == old(self)@.start(now),
    {
        self.index = 0;
        self.base.start_at(now);
    }

    /// Folds `ticks` into slot `index`.
    fn fold(&mut self, index: usize, ticks: u64)
        requires
            index < old(self)@.slots.len(),
        ensures
            final(self)@.mark == old(self)@.mark,
            final(self)@.cursor == old(self)@.cursor,
            final(self)@.slots == old(self)@.slots.update(
                index as int,
                folded(old(self)@.slots[index as int], ticks),
            ),
    {
        let (acc, mut cnt) = self.acc_cnts[index];
        cnt.sat_inc();
        self.acc_cnts[index] = (acc.sat_add(ticks), cnt);
    }

    /// Appends the slot that `ticks` were folded into once, and moves the
    /// cursor behind it.
    fn push_folded(&mut self, ticks: u64)
        ensures
            final(self)@.mark == old(self)@.mark,
            final(self)@.cursor == old(self)@.slots.len() + 1,
            final(self)@.slots == old(self)@.slots.push(folded(empty_slot(), ticks)),
    {
        let mut cnt = C::zero();
        cnt.sat_inc();
        self.acc_cnts.push((T::zero().sat_add(ticks), cnt));
        self.index = self.acc_cnts.len();
    }

    /// Folds the ticks from the mark to `now` into slot `index`; does nothing
    /// where there is no such slot.
    pub fn acc_n_at(&mut self, index: usize, now: Tick<S>)
        ensures
            final(self)@ == old(self)@.acc_n(index as int, now),
    {
        if index < self.acc_cnts.len() {
            let ticks: u64 = self.base.elapsed_at(now);
            self.fold(index, ticks);
        }
    }

    /// Folds the ticks from the mark to `now` into slot `index`, if there is
    /// such a slot, and makes `now` the mark in either case.
    pub fn acc_n_restart_at(&mut self, index: usize, now: Tick<S>)
        ensures
            final(self)@ == old(self)@.acc_n_restart(index as int, now),
    {
        if index < self.acc_cnts.len() {
            let ticks: u64 = self.base.elapsed_and_update_at(now);
            self.fold(index, ticks);
        } else {
            self.base.start_at(now);
        }
    }

    /// Folds the ticks from the mark to `now` into the slot at the cursor,
    /// appending that slot if the cursor has passed the others, and moves the
    /// cursor behind it. Returns the index of the slot.
    pub fn acc_push_at(&mut self, now: Tick<S>) -> (index: usize)
        ensures
            final(self)@ == old(self)@.acc_push(now),
            index == old(self)@.next_index(),
    {
        let n: usize = self.acc_cnts.len();
        if n > self.index {
            let index: usize = self.index;
            self.acc_n_at(index, now);
            self.index = index + 1;
            index
        } else {
            let ticks: u64 = self.base.elapsed_at(now);
            self.push_folded(ticks);
            n
        }
    }

    /// As `acc_push_at`, and `now` becomes the mark.
    pub fn acc_push_restart_at(&mut self, now: Tick<S>) -> (index: usize)
        ensures
            final(self)@ == old(self)@.acc_push_restart(now),
            index == old(self)@.next_index(),
    {
        let n: usize = self.acc_cnts.len();
        if n > self.index {
            let index: usize = self.index;
            self.acc_n_restart_at(index, now);
            self.index = index + 1;
            index
        } else {
            let ticks: u64 = self.base.elapsed_and_update_at(now);
            self.push_folded(ticks);
            n
        }
    }

    /// Every slot, also those behind the cursor.
    pub fn all_acc_cnts(&self) -> (slots: &[(T, C)])
        ensures
            slots@ == self@.slots,
    {
        self.acc_cnts.as_slice()
    }

    /// The slots before the cursor: those pushed to since the last start.
    pub fn acc_cnts(&self) -> (slots: &[(T, C)])
        requires
            self@.wf(),
        ensures
            slots@ == self@.pushed(),
    {
        &self.acc_cnts[0..self.index]
    }
}

impl<T: TraceValue + Copy, C: TraceCount + Copy> AccVec<false, T, C> {
    /// Starts an episode at the present reading of the clock.
    pub fn start(&mut self)
        ensures
            final(self)@ == old(self)@.start(final(self)@.mark),
    {
        self.start_at(get_timer());
    }

    /// Folds the ticks from the mark to the present reading of the clock into
    /// slot `index`; does nothing where there is no such slot.
    pub fn acc_n(&mut self, index: usize)
        ensures
            exists|now: Value| final(self)@ == #[trigger] old(self)@.acc_n(index as int, now),
    {
        if index < self.acc_cnts.len() {
            self.acc_n_at(index, get_timer());
        } else {
            assert(self@ == old(self)@.acc_n(index as int, self@.mark));
        }
    }

    /// Folds the ticks from the mark to the present reading of the clock into
    /// slot `index`, if there is such a slot, and makes that reading the mark
    /// in either case.
    pub fn acc_n_restart(&mut self, index: usize)
        ensures
            final(self)@ == old(self)@.acc_n_restart(index as int, final(self)@.mark),
    {
        self.acc_n_restart_at(index, get_timer());
    }

    /// Folds the ticks from the mark to the present reading of the clock into
    /// the slot at the cursor, as `acc_push_at` does. Returns the index of the
    /// slot.
    pub fn acc_push(&mut self) -> (index: usize)
        ensures
            exists|now: Value| final(self)@ == #[trigger] old(self)@.acc_push(now),
            index == old(self)@.next_index(),
    {
        self.acc_push_at(get_timer())
    }

    /// As `acc_push`, and the reading becomes the mark.
    pub fn acc_push_restart(&mut self) -> (index: usize)
        ensures
            final(self)@ == old(self)@.acc_push_restart(final(self)@.mark),
            index == old(self)@.next_index(),
    {
        self.acc_push_restart_at(get_timer())
    }
}

} // verus!

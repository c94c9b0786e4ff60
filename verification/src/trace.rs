//! Traces: the ticks that each step of an episode took, and their sums over
//! many episodes.
use crate::arch::get_timer;
use crate::arch::TDesc;
use crate::base::BaseTimer;
use crate::base::Tick;
use crate::delta::tick_modulus;
use crate::delta::Delta;
use crate::traits::TArch;
use crate::traits::TickValue;
use crate::traits::TraceValue;
use vstd::arithmetic::div_mod::lemma_add_mod_noop;
use vstd::prelude::*;

verus! {

/// What a `Trace` holds: the mark of its timer, the number of steps taken since
/// the last start, and the ticks stored for each step.
#[verifier::ext_equal]
pub struct TraceView<V, T> {
    pub mark: V,
    pub step: nat,
    pub trace: Seq<T>,
}

impl<V: TickValue, T: TraceValue> TraceView<V, T> {
    /// The steps taken do not outnumber the entries.
    pub open spec fn wf(self) -> bool {
        self.step <= self.trace.len()
    }

    /// Whether there are `n` entries, none of them written, and no step taken.
    pub open spec fn is_empty(self, n: nat) -> bool {
        &&& self.step == 0
        &&& self.trace == Seq::new(n, |i: int| T::spec_zero())
    }

    /// A new episode: `now` is the mark and no step is taken. The entries stay.
    pub open spec fn start(self, now: V) -> Self {
        TraceView { mark: now, step: 0, trace: self.trace }
    }

    /// One more step: the ticks from the mark to `now` are stored in the next
    /// entry and `now` becomes the mark. With every entry written, nothing
    /// changes.
    pub open spec fn next(self, now: V) -> Self {
        if self.step < self.trace.len() {
            TraceView {
                mark: now,
                step: self.step + 1,
                trace: self.trace.update(
                    self.step as int,
                    T::spec_from_delta(now.spec_since(self.mark)),
                ),
            }
        } else {
            self
        }
    }

    /// One step at each of `readings`, in order.
    pub open spec fn steps(self, readings: Seq<V>) -> Self
        decreases readings.len(),
    {
        if readings.len() == 0 {
            self
        } else {
            self.steps(readings.drop_last()).next(readings.last())
        }
    }
}

/// After a start and `k` steps, no more than there are entries, `k` steps are
/// counted, the mark is the last reading, each of the first `k` entries holds
/// the ticks from the reading before it to its own, and every other entry is
/// as it was.
pub proof fn lemma_steps_after_start<V: TickValue, T: TraceValue>(
    trace: TraceView<V, T>,
    now: V,
    readings: Seq<V>,
)
    requires
        readings.len() <= trace.trace.len(),
    ensures
        ({
            let end = trace.start(now).steps(readings);
            &&& end.wf()
            &&& end.step == readings.len()
            &&& end.trace.len() == trace.trace.len()
            &&& end.mark == if readings.len() == 0 {
                now
            } else {
                readings.last()
            }
            &&& forall|i: int|
                0 <= i < readings.len() ==> #[trigger] end.trace[i] == T::spec_from_delta(
                    readings[i].spec_since(
                        if i == 0 {
                            now
                        } else {
                            readings[i - 1]
                        },
                    ),
                )
            &&& forall|i: int|
                readings.len() <= i < trace.trace.len() ==> #[trigger] end.trace[i]
                    == trace.trace[i]
        }),
    decreases readings.len(),
{
    if readings.len() > 0 {
        lemma_steps_after_start(trace, now, readings.drop_last());
    }
}

/// A start and `k` steps, no more than there are entries, leave at zero every
/// entry behind the first `k` that was at zero before: so it is with all of
/// them on a trace that was cleared, while entries that an earlier and longer
/// episode wrote keep what it wrote.
pub proof fn lemma_unwritten_entries_are_zero<V: TickValue, T: TraceValue>(
    trace: TraceView<V, T>,
    now: V,
    readings: Seq<V>,
)
    requires
        readings.len() <= trace.trace.len(),
        forall|i: int|
            readings.len() <= i < trace.trace.len() ==> #[trigger] trace.trace[i]
                == T::spec_zero(),
    ensures
        forall|i: int|
            readings.len() <= i < trace.trace.len() ==> #[trigger] trace.start(now).steps(
                readings,
            ).trace[i] == T::spec_zero(),
{
    lemma_steps_after_start(trace, now, readings);
}

/// The sum of tick counts on the counter: it wraps as the counter does.
pub open spec fn wrapped_total(steps: Seq<u64>) -> Delta
    decreases steps.len(),
{
    if steps.len() == 0 {
        Delta(0)
    } else {
        wrapped_total(steps.drop_last()).wrapped_sum(Delta(steps.last()))
    }
}

/// On a hardware counter, with entries as wide as the counter, the steps of an
/// episode add up to the ticks from the start to the last step: each entry is
/// its step's share of the way that the counter went.
pub proof fn lemma_steps_add_up(trace: TraceView<u64, u64>, now: u64, readings: Seq<u64>)
    requires
        readings.len() <= trace.trace.len(),
    ensures
        ({
            let written = trace.start(now).steps(readings).trace.take(readings.len() as int);
            wrapped_total(written) == if readings.len() == 0 {
                Delta(0)
            } else {
                readings.last().spec_since(now)
            }
        }),
    decreases readings.len(),
{
    let end = trace.start(now).steps(readings);
    let written = end.trace.take(readings.len() as int);
    if readings.len() > 0 {
        let earlier = readings.drop_last();
        let before = trace.start(now).steps(earlier);
        lemma_steps_add_up(trace, now, earlier);
        lemma_steps_after_start(trace, now, earlier);
        lemma_steps_after_start(trace, now, readings);
        assert(written.drop_last() =~= before.trace.take(earlier.len() as int));
        let so_far = wrapped_total(written.drop_last())@ as int;
        let last = readings.last() as int;
        let mark = before.mark as int;
        let modulus = tick_modulus() as int;
        assert(written.last() == (last - mark) % modulus);
        assert(so_far == (mark - now) % modulus) by {
            if earlier.len() == 0 {
                assert(mark == now);
            }
        }
        lemma_add_mod_noop(mark - now, last - mark, modulus);
    } else {
        assert(written =~= Seq::empty());
    }
}

/// With every entry written, a further step changes nothing.
pub proof fn lemma_full_trace_ignores_steps<V: TickValue, T: TraceValue>(
    trace: TraceView<V, T>,
    now: V,
)
    requires
        trace.step >= trace.trace.len(),
    ensures
        trace.next(now) == trace,
{
}

/// The ticks of up to `N` steps, each measured from the step before it.
#[derive(Debug)]
pub struct Trace<const S: bool, T: TraceValue + Copy, const N: usize> where TDesc<S>: TArch {
    base: BaseTimer<S>,
    index: usize,
    trace: [T; N],
}

impl<const S: bool, T: TraceValue + Copy, const N: usize> View for Trace<S, T, N> where
    TDesc<S>: TArch,
 {
    type V = TraceView<Tick<S>, T>;

    closed spec fn view(&self) -> Self::V {
        TraceView { mark: self.base@, step: self.index as nat, trace: self.trace@ }
    }
}

impl<const S: bool, T: TraceValue + Copy, const N: usize> Default for Trace<S, T, N> where
    TDesc<S>: TArch,
 {
    /// `N` unwritten entries, no step taken, and a timer that was never
    /// started.
    fn default() -> (trace: Self)
        ensures
            trace@.mark.is_initial(),
            trace@.is_empty(N as nat),
    {
        let entries = [T::zero();N];
        assert(entries@ =~= Seq::new(N as nat, |i: int| T::spec_zero()));
        Trace { base: BaseTimer::default(), index: 0, trace: entries }
    }
}

impl<const S: bool, T: TraceValue + Copy, const N: usize> Trace<S, T, N> where TDesc<S>: TArch {
    /// Every `Trace` has `N` entries.
    pub proof fn lemma_len(&self)
        ensures
            self@.trace.len() == N,
    {
    }

    /// Unwrites every entry, takes back every step and resets the timer.
    pub fn clear(&mut self)
        ensures
            final(self)@.mark.is_initial(),
            final(self)@.is_empty(N as nat),
    {
        *self = Self::default();
    }

    /// Starts an episode at the reading `now`.
    pub fn start_at(&mut self, now: Tick<S>)
        ensures
            final(self)@ == old(self)@.start(now),
    {
        self.base.start_at(now);
        self.index = 0;
    }

    /// Takes a step at the reading `now`: stores the ticks since the mark in
    /// the next entry and makes `now` the mark. After `N` steps it does
    /// nothing.
    pub fn next_at(&mut self, now: Tick<S>)
        ensures
            final(self)@ == old(self)@.next(now),
    {
        if self.index < N {
            let delta: Delta = self.base.elapsed_delta_and_update_at(now);
            self.trace[self.index] = T::from_delta(delta);
            self.index += 1;
        }
    }

    /// The entries, written or not.
    pub fn trace(&self) -> (trace: &[T; N])
        ensures
            trace@ == self@.trace,
    {
        &self.trace
    }
}

impl<T: TraceValue + Copy, const N: usize> Trace<false, T, N> {
    /// Starts an episode at the present reading of the clock.
    pub fn start(&mut self)
        ensures
            final(self)@ == old(self)@.start(final(self)@.mark),
    {
        self.start_at(get_timer());
    }

    /// Takes a step at the present reading of the clock. After `N` steps it
    /// does nothing.
    pub fn next(&mut self)
        ensures
            final(self)@ == old(self)@.next(final(self)@.mark),
    {
        if self.index < N {
            self.next_at(get_timer());
        }
    }
}

/// What an `AccTrace` holds: the trace of the present episode, and the sums of
/// the traces that were folded in.
#[verifier::ext_equal]
pub struct AccTraceView<V, T> {
    pub last: TraceView<V, T>,
    pub acc: Seq<T>,
}

impl<V: TickValue, T: TraceValue> AccTraceView<V, T> {
    /// Whether the trace is empty and nothing was folded in.
    pub open spec fn is_empty(self, n: nat) -> bool {
        &&& self.last.is_empty(n)
        &&& self.acc == Seq::new(n, |i: int| T::spec_zero())
    }

    /// A new episode of the trace; the sums stay.
    pub open spec fn start(self, now: V) -> Self {
        AccTraceView { last: self.last.start(now), acc: self.acc }
    }

    /// One more step of the trace; the sums stay.
    pub open spec fn next(self, now: V) -> Self {
        AccTraceView { last: self.last.next(now), acc: self.acc }
    }

    /// Each entry of the trace is folded into the sum at its position; the
    /// trace stays.
    pub open spec fn acc(self) -> Self {
        AccTraceView {
            last: self.last,
            acc: Seq::new(
                self.acc.len(),
                |i: int| self.acc[i].spec_sat_add(self.last.trace[i].spec_to_delta()@),
            ),
        }
    }
}

/// A trace, and for each of its `N` steps the ticks summed over the episodes
/// that were folded in.
#[derive(Debug)]
pub struct AccTrace<const S: bool, T: TraceValue + Copy, const N: usize> where TDesc<S>: TArch {
    trace: Trace<S, T, N>,
    acc: [T; N],
}

impl<const S: bool, T: TraceValue + Copy, const N: usize> View for AccTrace<S, T, N> where
    TDesc<S>: TArch,
 {
    type V = AccTraceView<Tick<S>, T>;

    closed spec fn view(&self) -> Self::V {
        AccTraceView { last: self.trace@, acc: self.acc@ }
    }
}

impl<const S: bool, T: TraceValue + Copy, const N: usize> Default for AccTrace<S, T, N> where
    TDesc<S>: TArch,
 {
    /// An empty trace and `N` sums of zero.
    fn default() -> (acc: Self)
        ensures
            acc@.last.mark.is_initial(),
            acc@.is_empty(N as nat),
    {
        let sums = [T::zero();N];
        assert(sums@ =~= Seq::new(N as nat, |i: int| T::spec_zero()));
        AccTrace { trace: Trace::default(), acc: sums }
    }
}

impl<const S: bool, T: TraceValue + Copy, const N: usize> AccTrace<S, T, N> where
    TDesc<S>: TArch,
 {
    /// Every `AccTrace` has `N` entries and `N` sums.
    pub proof fn lemma_len(&self)
        ensures
            self@.last.trace.len() == N,
            self@.acc.len() == N,
    {
    }

    /// Empties the trace, sets every sum to zero and resets the timer.
    pub fn clear(&mut self)
        ensures
            final(self)@.last.mark.is_initial(),
            final(self)@.is_empty(N as nat),
    {
        *self = Self::default();
    }

    /// Starts an episode at the reading `now`.
    pub fn start_at(&mut self, now: Tick<S>)
        ensures
            final(self)@ == old(self)@.start(now),
    {
        self.trace.start_at(now);
    }

    /// Takes a step at the reading `now`.
    pub fn next_at(&mut self, now: Tick<S>)
        ensures
            final(self)@ == old(self)@.next(now),
    {
        self.trace.next_at(now);
    }

    /// Folds each entry of the trace into the sum at its position; a sum stops
    /// at the ceiling of its representation.
    pub fn acc(&mut self)
        ensures
            final(self)@ == old(self)@.acc(),
    {
        for i in 0..N
            invariant
                self.trace == old(self).trace,
                forall|j: int|
                    0 <= j < i ==> self.acc@[j] == old(self).acc@[j].spec_sat_add(
                        old(self).trace@.trace[j].spec_to_delta()@,
                    ),
                forall|j: int| i <= j < N ==> self.acc@[j] == old(self).acc@[j],
        {
            let step: Delta = self.trace.trace()[i].to_delta();
            self.acc[i] = self.acc[i].sat_add(step.0);
        }
        assert(self@.acc =~= old(self)@.acc().acc);
    }

    /// The trace of the present episode, as far as it was written.
    pub fn last_trace(&self) -> (trace: &[T; N])
        ensures
            trace@ == self@.last.trace,
    {
        self.trace.trace()
    }

    /// The sums.
    pub fn acc_trace(&self) -> (sums: &[T; N])
        ensures
            sums@ == self@.acc,
    {
        &self.acc
    }
}

impl<T: TraceValue + Copy, const N: usize> AccTrace<false, T, N> {
    /// Starts an episode at the present reading of the clock.
    pub fn start(&mut self)
        ensures
            final(self)@ == old(self)@.start(final(self)@.last.mark),
    {
        self.trace.start();
    }

    /// Takes a step at the present reading of the clock.
    pub fn next(&mut self)
        ensures
            final(self)@ == old(self)@.next(final(self)@.last.mark),
    {
        self.trace.next();
    }
}

} // verus!

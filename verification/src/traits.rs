//! The capabilities that the timers and containers are generic over: a value
//! that accumulates ticks, a value that counts occurrences, a reading of a tick
//! source, and the tick source itself.
use crate::delta::tick_modulus;
use crate::delta::Delta;
use crate::sealed::Sealed;
use vstd::prelude::*;

verus! {

/// What a sum comes to in a representation that holds no more than `ceiling`.
pub open spec fn saturated(sum: nat, ceiling: nat) -> nat {
    if sum > ceiling {
        ceiling
    } else {
        sum
    }
}

/// A value that counts occurrences.
///
/// Every representation stands for a number between zero and its ceiling, and
/// counting stops at the ceiling. The unit type is the representation with
/// ceiling zero: it never counts.
pub trait TraceCount: Sized + Sealed {
    /// The largest number that the representation holds.
    spec fn ceiling() -> nat;

    /// The number that a value stands for.
    spec fn count(self) -> nat;

    /// The value that stands for zero.
    spec fn spec_zero() -> Self;

    /// The value after one more occurrence.
    spec fn spec_sat_inc(self) -> Self;

    /// The value as an index.
    spec fn spec_as_usize(self) -> usize;

    /// The count of a slot that nothing was folded into.
    fn zero() -> (zero: Self)
        ensures
            zero == Self::spec_zero(),
    ;

    /// Counts one more occurrence, unless the count is at its ceiling.
    fn sat_inc(&mut self)
        ensures
            *final(self) == old(self).spec_sat_inc(),
    ;

    /// The count as an index; a count beyond the range of `usize` is reduced
    /// modulo that range.
    fn as_usize(self) -> (index: usize)
        ensures
            index == self.spec_as_usize(),
    ;

    /// A value is determined by the number it stands for, which is at most the
    /// ceiling; zero stands for 0.
    proof fn lemma_count(a: Self, b: Self)
        ensures
            a.count() <= Self::ceiling(),
            a.count() == b.count() ==> a == b,
            Self::spec_zero().count() == 0,
    ;

    /// Counting adds one and stops at the ceiling.
    proof fn lemma_sat_inc(value: Self)
        ensures
            value.spec_sat_inc().count() == saturated(value.count() + 1, Self::ceiling()),
    ;

    /// The index is the count, reduced modulo the range of `usize`.
    proof fn lemma_as_usize(value: Self)
        ensures
            value.spec_as_usize() == value.count() % (usize::MAX as nat + 1),
    ;
}

/// A value that accumulates tick counts.
///
/// Every representation stands for a tick count between zero and its ceiling,
/// and accumulation stops at the ceiling. The unit type is the representation
/// with ceiling zero: it accumulates nothing.
pub trait TraceValue: Sized + Sealed {
    /// The largest tick count that the representation holds.
    spec fn ceiling() -> nat;

    /// The tick count that a value stands for.
    spec fn ticks(self) -> nat;

    /// The value that stands for no ticks.
    spec fn spec_zero() -> Self;

    /// The value after `ticks` more ticks are folded in.
    spec fn spec_sat_add(self, ticks: u64) -> Self;

    /// The value that a tick count is stored as.
    spec fn spec_from_delta(delta: Delta) -> Self;

    /// The tick count that a stored value is read back as.
    spec fn spec_to_delta(self) -> Delta;

    /// The value of a slot that nothing was folded into.
    fn zero() -> (zero: Self)
        ensures
            zero == Self::spec_zero(),
    ;

    /// Folds `other` more ticks into the value; the sum stops at the ceiling.
    fn sat_add(self, other: u64) -> (sum: Self)
        ensures
            sum == self.spec_sat_add(other),
    ;

    /// Stores a tick count; a count above the ceiling is reduced modulo the
    /// range of the representation.
    fn from_delta(delta: Delta) -> (value: Self)
        ensures
            value == Self::spec_from_delta(delta),
    ;

    /// Reads a stored value back as a tick count; a value beyond the range of
    /// tick counts is reduced modulo that range.
    fn to_delta(self) -> (delta: Delta)
        ensures
            delta == self.spec_to_delta(),
    ;

    /// A value is determined by the tick count it stands for, which is at most
    /// the ceiling; zero stands for no ticks.
    proof fn lemma_ticks(a: Self, b: Self)
        ensures
            a.ticks() <= Self::ceiling(),
            a.ticks() == b.ticks() ==> a == b,
            Self::spec_zero().ticks() == 0,
    ;

    /// Folding adds the ticks and stops at the ceiling.
    proof fn lemma_sat_add(value: Self, ticks: u64)
        ensures
            value.spec_sat_add(ticks).ticks() == saturated(
                value.ticks() + ticks as nat,
                Self::ceiling(),
            ),
    ;

    /// Storing keeps a count up to the ceiling and reduces a larger one modulo
    /// the range of the representation.
    proof fn lemma_from_delta(delta: Delta)
        ensures
            Self::spec_from_delta(delta).ticks() == delta@ as nat % (Self::ceiling() + 1),
    ;

    /// Reading back keeps a value within the range of tick counts and reduces a
    /// larger one modulo that range.
    proof fn lemma_to_delta(value: Self)
        ensures
            value.spec_to_delta()@ == value.ticks() % tick_modulus(),
    ;
}

/// A slot after `ticks` are folded into it: the value takes the ticks, the
/// count one more occurrence.
pub open spec fn folded<T: TraceValue, C: TraceCount>(slot: (T, C), ticks: u64) -> (T, C) {
    (slot.0.spec_sat_add(ticks), slot.1.spec_sat_inc())
}

/// The slot that nothing was folded into.
pub open spec fn empty_slot<T: TraceValue, C: TraceCount>() -> (T, C) {
    (T::spec_zero(), C::spec_zero())
}

/// A value at its ceiling takes no more ticks: folding any tick count into a
/// slot whose value stands for the ceiling leaves the value as it is, and the
/// count still takes the occurrence.
pub proof fn lemma_fold_at_ceiling<T: TraceValue, C: TraceCount>(slot: (T, C), ticks: u64)
    requires
        slot.0.ticks() == T::ceiling(),
    ensures
        folded(slot, ticks).0 == slot.0,
        folded(slot, ticks).1.count() == saturated(slot.1.count() + 1, C::ceiling()),
{
    T::lemma_sat_add(slot.0, ticks);
    T::lemma_ticks(slot.0.spec_sat_add(ticks), slot.0);
    C::lemma_sat_inc(slot.1);
}

/// A reading of a tick source.
///
/// Readings of one source can be told apart only by the distance between them.
pub trait TickValue: Copy + Sealed {
    /// Whether a timer that was never started may hold this reading as its mark.
    spec fn is_initial(self) -> bool;

    /// The ticks from `earlier` to this reading.
    spec fn spec_since(self, earlier: Self) -> Delta;

    /// The mark of a timer that was never started.
    fn initial() -> (mark: Self)
        ensures
            mark.is_initial(),
    ;

    /// The ticks from `last` to this reading.
    fn since(self, last: Self) -> (delta: Delta)
        ensures
            delta == self.spec_since(last),
    ;

    /// The ticks from this mark to `now`, which becomes the mark.
    fn since_and_update(&mut self, now: Self) -> (delta: Delta)
        ensures
            delta == now.spec_since(*old(self)),
            *final(self) == now,
    ;
}

/// A tick source: it fixes the type of its readings.
pub trait TArch: Sealed {
    /// A reading of this source.
    type Value: TickValue + core::fmt::Debug;
}

} // verus!

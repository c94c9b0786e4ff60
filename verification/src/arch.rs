//! The two tick sources and their readings.
//!
//! A hardware counter is read as a `u64` that wraps; the instruction that reads
//! it is not part of this crate, so its readings are handed in. The portable
//! clock is `std::time::Instant`, which this crate reads itself.
use crate::delta::tick_modulus;
use crate::delta::Delta;
use crate::sealed::Sealed;
use crate::traits::TArch;
use crate::traits::TickValue;
use vstd::prelude::*;

verus! {

/// `std::time::Instant`, of which nothing is known but the names below.
#[verifier::external_type_specification]
#[verifier::external_body]
pub struct ExInstant(std::time::Instant);

/// The `Duration` that `Instant::duration_since` gives for two instants.
pub uninterp spec fn elapsed_between(
    later: std::time::Instant,
    earlier: std::time::Instant,
) -> core::time::Duration;

/// The whole nanoseconds that `Duration::as_nanos` gives for a duration.
pub uninterp spec fn whole_nanos(duration: core::time::Duration) -> u128;

/// `Instant::now` reads the monotonic clock; nothing is claimed of the reading.
pub assume_specification[ std::time::Instant::now ]() -> std::time::Instant;

/// `Instant::duration_since` depends on its two instants alone and does not
/// panic: where `earlier` is the later one it returns a zero duration.
pub assume_specification[ std::time::Instant::duration_since ](
    later: &std::time::Instant,
    earlier: std::time::Instant,
) -> (elapsed: core::time::Duration)
    ensures
        elapsed == elapsed_between(*later, earlier),
;

/// `Duration::as_nanos` depends on the duration alone.
pub assume_specification[ core::time::Duration::as_nanos ](
    duration: &core::time::Duration,
) -> (nanos: u128)
    ensures
        nanos == whole_nanos(*duration),
;

/// Selects a tick source: `true` is the hardware counter, `false` the portable
/// clock.
#[derive(Default)]
pub struct TDesc<const B: bool>();

/// Marker for a hardware counter.
#[derive(Default)]
pub struct Asm(());

/// A reading of the portable clock.
#[derive(Debug, Clone, Copy)]
pub struct Value(std::time::Instant);

impl View for Value {
    type V = std::time::Instant;

    closed spec fn view(&self) -> std::time::Instant {
        self.0
    }
}

impl Value {
    /// The reading that stands for `instant`.
    pub fn at(instant: std::time::Instant) -> (value: Self)
        ensures
            value@ == instant,
    {
        Value(instant)
    }

    /// The instant of the reading.
    pub fn instant(&self) -> (instant: std::time::Instant)
        ensures
            instant == self@,
    {
        self.0
    }
}

/// Reads the portable clock.
pub fn get_timer() -> (now: Value) {
    Value(std::time::Instant::now())
}

impl Sealed for Value {

}

impl<const B: bool> Sealed for TDesc<B> {

}

/// A reading of a hardware counter: the counter wraps, so the distance between
/// two readings is their difference modulo the counter's range.
impl TickValue for u64 {
    open spec fn is_initial(self) -> bool {
        self == 0
    }

    open spec fn spec_since(self, earlier: Self) -> Delta {
        Delta(((self - earlier) % tick_modulus() as int) as u64)
    }

    fn initial() -> (mark: Self) {
        0
    }

    fn since(self, last: Self) -> (delta: Delta) {
        Delta(self.wrapping_sub(last))
    }

    fn since_and_update(&mut self, now: Self) -> (delta: Delta) {
        let delta: u64 = now.wrapping_sub(*self);
        *self = now;
        Delta(delta)
    }
}

/// A reading of the portable clock: the distance between two readings is the
/// whole nanoseconds from the earlier to the later, reduced to a tick count.
impl TickValue for Value {
    open spec fn is_initial(self) -> bool {
        true
    }

    open spec fn spec_since(self, earlier: Self) -> Delta {
        Delta((whole_nanos(elapsed_between(self@, earlier@)) % 0x1_0000_0000_0000_0000) as u64)
    }

    fn initial() -> (mark: Self) {
        get_timer()
    }

    fn since(self, last: Self) -> (delta: Delta) {
        let nanos: u128 = self.0.duration_since(last.0).as_nanos();
        Delta((nanos % 0x1_0000_0000_0000_0000) as u64)
    }

    fn since_and_update(&mut self, now: Self) -> (delta: Delta) {
        let delta: Delta = now.since(*self);
        *self = now;
        delta
    }
}

impl TArch for TDesc<true> {
    type Value = u64;
}

impl TArch for TDesc<false> {
    type Value = Value;
}

} // verus!

//! The representations that accumulate ticks: the unsigned integers, each
//! saturating at its own maximum, and the unit type, which accumulates nothing.
use crate::delta::tick_modulus;
use crate::delta::Delta;
use crate::sealed::Sealed;
use crate::traits::TraceValue;
use vstd::arithmetic::div_mod::lemma_small_mod;
use vstd::prelude::*;

verus! {

impl Sealed for () {

}

impl Sealed for u8 {

}

impl Sealed for u16 {

}

impl Sealed for u32 {

}

impl Sealed for u64 {

}

impl Sealed for u128 {

}

impl Sealed for usize {

}

impl TraceValue for () {
    open spec fn ceiling() -> nat {
        0
    }

    open spec fn ticks(self) -> nat {
        0
    }

    open spec fn spec_zero() -> Self {
        ()
    }

    open spec fn spec_sat_add(self, ticks: u64) -> Self {
        ()
    }

    open spec fn spec_from_delta(delta: Delta) -> Self {
        ()
    }

    open spec fn spec_to_delta(self) -> Delta {
        Delta(0)
    }

    fn zero() -> (zero: Self) {
        ()
    }

    fn sat_add(self, other: u64) -> (sum: Self) {
        ()
    }

    fn from_delta(delta: Delta) -> (value: Self) {
        ()
    }

    fn to_delta(self) -> (delta: Delta) {
        Delta(0)
    }

    proof fn lemma_ticks(a: Self, b: Self) {
    }

    proof fn lemma_sat_add(value: Self, ticks: u64) {
    }

    proof fn lemma_from_delta(delta: Delta) {
    }

    proof fn lemma_to_delta(value: Self) {
    }
}

impl TraceValue for u8 {
    open spec fn ceiling() -> nat {
        u8::MAX as nat
    }

    open spec fn ticks(self) -> nat {
        self as nat
    }

    open spec fn spec_zero() -> Self {
        0
    }

    open spec fn spec_sat_add(self, ticks: u64) -> Self {
        if self + ticks > u8::MAX {
            u8::MAX
        } else {
            (self + ticks) as u8
        }
    }

    open spec fn spec_from_delta(delta: Delta) -> Self {
        (delta@ % 0x100) as u8
    }

    open spec fn spec_to_delta(self) -> Delta {
        Delta(self as u64)
    }

    fn zero() -> (zero: Self) {
        0
    }

    fn sat_add(self, other: u64) -> (sum: Self) {
        if other > (u8::MAX - self) as u64 {
            u8::MAX
        } else {
            self + other as u8
        }
    }

    fn from_delta(delta: Delta) -> (value: Self) {
        (delta.0 % 0x100) as u8
    }

    fn to_delta(self) -> (delta: Delta) {
        Delta(self as u64)
    }

    proof fn lemma_ticks(a: Self, b: Self) {
    }

    proof fn lemma_sat_add(value: Self, ticks: u64) {
    }

    proof fn lemma_from_delta(delta: Delta) {
    }

    proof fn lemma_to_delta(value: Self) {
    }
}

impl TraceValue for u16 {
    open spec fn ceiling() -> nat {
        u16::MAX as nat
    }

    open spec fn ticks(self) -> nat {
        self as nat
    }

    open spec fn spec_zero() -> Self {
        0
    }

    open spec fn spec_sat_add(self, ticks: u64) -> Self {
        if self + ticks > u16::MAX {
            u16::MAX
        } else {
            (self + ticks) as u16
        }
    }

    open spec fn spec_from_delta(delta: Delta) -> Self {
        (delta@ % 0x1_0000) as u16
    }

    open spec fn spec_to_delta(self) -> Delta {
        Delta(self as u64)
    }

    fn zero() -> (zero: Self) {
        0
    }

    fn sat_add(self, other: u64) -> (sum: Self) {
        if other > (u16::MAX - self) as u64 {
            u16::MAX
        } else {
            self + other as u16
        }
    }

    fn from_delta(delta: Delta) -> (value: Self) {
        (delta.0 % 0x1_0000) as u16
    }

    fn to_delta(self) -> (delta: Delta) {
        Delta(self as u64)
    }

    proof fn lemma_ticks(a: Self, b: Self) {
    }

    proof fn lemma_sat_add(value: Self, ticks: u64) {
    }

    proof fn lemma_from_delta(delta: Delta) {
    }

    proof fn lemma_to_delta(value: Self) {
    }
}

impl TraceValue for u32 {
    open spec fn ceiling() -> nat {
        u32::MAX as nat
    }

    open spec fn ticks(self) -> nat {
        self as nat
    }

    open spec fn spec_zero() -> Self {
        0
    }

    open spec fn spec_sat_add(self, ticks: u64) -> Self {
        if self + ticks > u32::MAX {
            u32::MAX
        } else {
            (self + ticks) as u32
        }
    }

    open spec fn spec_from_delta(delta: Delta) -> Self {
        (delta@ % 0x1_0000_0000) as u32
    }

    open spec fn spec_to_delta(self) -> Delta {
        Delta(self as u64)
    }

    fn zero() -> (zero: Self) {
        0
    }

    fn sat_add(self, other: u64) -> (sum: Self) {
        if other > (u32::MAX - self) as u64 {
            u32::MAX
        } else {
            self + other as u32
        }
    }

    fn from_delta(delta: Delta) -> (value: Self) {
        (delta.0 % 0x1_0000_0000) as u32
    }

    fn to_delta(self) -> (delta: Delta) {
        Delta(self as u64)
    }

    proof fn lemma_ticks(a: Self, b: Self) {
    }

    proof fn lemma_sat_add(value: Self, ticks: u64) {
    }

    proof fn lemma_from_delta(delta: Delta) {
    }

    proof fn lemma_to_delta(value: Self) {
    }
}

impl TraceValue for u64 {
    open spec fn ceiling() -> nat {
        u64::MAX as nat
    }

    open spec fn ticks(self) -> nat {
        self as nat
    }

    open spec fn spec_zero() -> Self {
        0
    }

    open spec fn spec_sat_add(self, ticks: u64) -> Self {
        if self + ticks > u64::MAX {
            u64::MAX
        } else {
            (self + ticks) as u64
        }
    }

    open spec fn spec_from_delta(delta: Delta) -> Self {
        delta@
    }

    open spec fn spec_to_delta(self) -> Delta {
        Delta(self)
    }

    fn zero() -> (zero: Self) {
        0
    }

    fn sat_add(self, other: u64) -> (sum: Self) {
        self.saturating_add(other)
    }

    fn from_delta(delta: Delta) -> (value: Self) {
        delta.0
    }

    fn to_delta(self) -> (delta: Delta) {
        Delta(self)
    }

    proof fn lemma_ticks(a: Self, b: Self) {
    }

    proof fn lemma_sat_add(value: Self, ticks: u64) {
    }

    proof fn lemma_from_delta(delta: Delta) {
        lemma_small_mod(delta@ as nat, u64::MAX as nat + 1);
    }

    proof fn lemma_to_delta(value: Self) {
    }
}

impl TraceValue for u128 {
    open spec fn ceiling() -> nat {
        u128::MAX as nat
    }

    open spec fn ticks(self) -> nat {
        self as nat
    }

    open spec fn spec_zero() -> Self {
        0
    }

    open spec fn spec_sat_add(self, ticks: u64) -> Self {
        if self + ticks > u128::MAX {
            u128::MAX
        } else {
            (self + ticks) as u128
        }
    }

    open spec fn spec_from_delta(delta: Delta) -> Self {
        delta@ as u128
    }

    open spec fn spec_to_delta(self) -> Delta {
        Delta((self % 0x1_0000_0000_0000_0000) as u64)
    }

    fn zero() -> (zero: Self) {
        0
    }

    fn sat_add(self, other: u64) -> (sum: Self) {
        self.saturating_add(other as u128)
    }

    fn from_delta(delta: Delta) -> (value: Self) {
        delta.0 as u128
    }

    fn to_delta(self) -> (delta: Delta) {
        Delta((self % 0x1_0000_0000_0000_0000) as u64)
    }

    proof fn lemma_ticks(a: Self, b: Self) {
    }

    proof fn lemma_sat_add(value: Self, ticks: u64) {
    }

    proof fn lemma_from_delta(delta: Delta) {
        lemma_small_mod(delta@ as nat, u128::MAX as nat + 1);
    }

    proof fn lemma_to_delta(value: Self) {
    }
}

impl TraceValue for usize {
    open spec fn ceiling() -> nat {
        usize::MAX as nat
    }

    open spec fn ticks(self) -> nat {
        self as nat
    }

    open spec fn spec_zero() -> Self {
        0
    }

    open spec fn spec_sat_add(self, ticks: u64) -> Self {
        if self + ticks > usize::MAX {
            usize::MAX
        } else {
            (self + ticks) as usize
        }
    }

    open spec fn spec_from_delta(delta: Delta) -> Self {
        (delta@ as nat % (usize::MAX as nat + 1)) as usize
    }

    open spec fn spec_to_delta(self) -> Delta {
        Delta(self as u64)
    }

    fn zero() -> (zero: Self) {
        0
    }

    fn sat_add(self, other: u64) -> (sum: Self) {
        if other > (usize::MAX - self) as u64 {
            usize::MAX
        } else {
            self + other as usize
        }
    }

    fn from_delta(delta: Delta) -> (value: Self) {
        if delta.0 <= usize::MAX as u64 {
            proof {
                lemma_small_mod(delta@ as nat, usize::MAX as nat + 1);
            }
            delta.0 as usize
        } else {
            (delta.0 % (usize::MAX as u64 + 1)) as usize
        }
    }

    fn to_delta(self) -> (delta: Delta) {
        Delta(self as u64)
    }

    proof fn lemma_ticks(a: Self, b: Self) {
    }

    proof fn lemma_sat_add(value: Self, ticks: u64) {
    }

    proof fn lemma_from_delta(delta: Delta) {
        let range = usize::MAX as nat + 1;
        assert(delta@ as nat % range < range) by (nonlinear_arith)
            requires
                range > 0,
        ;
    }

    proof fn lemma_to_delta(value: Self) {
    }
}

} // verus!

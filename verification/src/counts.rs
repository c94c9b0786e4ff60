//! The representations that count occurrences: the unsigned integers, each
//! stopping at its own maximum, and the unit type, which counts nothing.
use crate::traits::TraceCount;
use vstd::arithmetic::div_mod::lemma_small_mod;
use vstd::prelude::*;

verus! {

impl TraceCount for () {
    open spec fn ceiling() -> nat {
        0
    }

    open spec fn count(self) -> nat {
        0
    }

    open spec fn spec_zero() -> Self {
        ()
    }

    open spec fn spec_sat_inc(self) -> Self {
        ()
    }

    open spec fn spec_as_usize(self) -> usize {
        0
    }

    fn zero() -> (zero: Self) {
        ()
    }

    fn sat_inc(&mut self) {
    }

    fn as_usize(self) -> (index: usize) {
        0
    }

    proof fn lemma_count(a: Self, b: Self) {
    }

    proof fn lemma_sat_inc(value: Self) {
    }

    proof fn lemma_as_usize(value: Self) {
        lemma_small_mod(0, usize::MAX as nat + 1);
    }
}

impl TraceCount for u8 {
    open spec fn ceiling() -> nat {
        u8::MAX as nat
    }

    open spec fn count(self) -> nat {
        self as nat
    }

    open spec fn spec_zero() -> Self {
        0
    }

    open spec fn spec_sat_inc(self) -> Self {
        if self == u8::MAX {
            self
        } else {
            (self + 1) as u8
        }
    }

    open spec fn spec_as_usize(self) -> usize {
        self as usize
    }

    fn zero() -> (zero: Self) {
        0
    }

    fn sat_inc(&mut self) {
        if *self != u8::MAX {
            *self = *self + 1;
        }
    }

    fn as_usize(self) -> (index: usize) {
        self as usize
    }

    proof fn lemma_count(a: Self, b: Self) {
    }

    proof fn lemma_sat_inc(value: Self) {
    }

    proof fn lemma_as_usize(value: Self) {
        lemma_small_mod(value as nat, usize::MAX as nat + 1);
    }
}

impl TraceCount for u16 {
    open spec fn ceiling() -> nat {
        u16::MAX as nat
    }

    open spec fn count(self) -> nat {
        self as nat
    }

    open spec fn spec_zero() -> Self {
        0
    }

    open spec fn spec_sat_inc(self) -> Self {
        if self == u16::MAX {
            self
        } else {
            (self + 1) as u16
        }
    }

    open spec fn spec_as_usize(self) -> usize {
        self as usize
    }

    fn zero() -> (zero: Self) {
        0
    }

    fn sat_inc(&mut self) {
        if *self != u16::MAX {
            *self = *self + 1;
        }
    }

    fn as_usize(self) -> (index: usize) {
        self as usize
    }

    proof fn lemma_count(a: Self, b: Self) {
    }

    proof fn lemma_sat_inc(value: Self) {
    }

    proof fn lemma_as_usize(value: Self) {
        lemma_small_mod(value as nat, usize::MAX as nat + 1);
    }
}

impl TraceCount for u32 {
    open spec fn ceiling() -> nat {
        u32::MAX as nat
    }

    open spec fn count(self) -> nat {
        self as nat
    }

    open spec fn spec_zero() -> Self {
        0
    }

    open spec fn spec_sat_inc(self) -> Self {
        if self == u32::MAX {
            self
        } else {
            (self + 1) as u32
        }
    }

    open spec fn spec_as_usize(self) -> usize {
        self as usize
    }

    fn zero() -> (zero: Self) {
        0
    }

    fn sat_inc(&mut self) {
        if *self != u32::MAX {
            *self = *self + 1;
        }
    }

    fn as_usize(self) -> (index: usize) {
        self as usize
    }

    proof fn lemma_count(a: Self, b: Self) {
    }

    proof fn lemma_sat_inc(value: Self) {
    }

    proof fn lemma_as_usize(value: Self) {
        lemma_small_mod(value as nat, usize::MAX as nat + 1);
    }
}

impl TraceCount for usize {
    open spec fn ceiling() -> nat {
        usize::MAX as nat
    }

    open spec fn count(self) -> nat {
        self as nat
    }

    open spec fn spec_zero() -> Self {
        0
    }

    open spec fn spec_sat_inc(self) -> Self {
        if self == usize::MAX {
            self
        } else {
            (self + 1) as usize
        }
    }

    open spec fn spec_as_usize(self) -> usize {
        self as usize
    }

    fn zero() -> (zero: Self) {
        0
    }

    fn sat_inc(&mut self) {
        if *self != usize::MAX {
            *self = *self + 1;
        }
    }

    fn as_usize(self) -> (index: usize) {
        self as usize
    }

    proof fn lemma_count(a: Self, b: Self) {
    }

    proof fn lemma_sat_inc(value: Self) {
    }

    proof fn lemma_as_usize(value: Self) {
        lemma_small_mod(value as nat, usize::MAX as nat + 1);
    }
}

impl TraceCount for u64 {
    open spec fn ceiling() -> nat {
        u64::MAX as nat
    }

    open spec fn count(self) -> nat {
        self as nat
    }

    open spec fn spec_zero() -> Self {
        0
    }

    open spec fn spec_sat_inc(self) -> Self {
        if self == u64::MAX {
            self
        } else {
            (self + 1) as u64
        }
    }

    open spec fn spec_as_usize(self) -> usize {
        (self as nat % (usize::MAX as nat + 1)) as usize
    }

    fn zero() -> (zero: Self) {
        0
    }

    fn sat_inc(&mut self) {
        if *self != u64::MAX {
            *self = *self + 1;
        }
    }

    fn as_usize(self) -> (index: usize) {
        if self <= usize::MAX as u64 {
            proof {
                lemma_small_mod(self as nat, usize::MAX as nat + 1);
            }
            self as usize
        } else {
            (self % (usize::MAX as u64 + 1)) as usize
        }
    }

    proof fn lemma_count(a: Self, b: Self) {
    }

    proof fn lemma_sat_inc(value: Self) {
    }

    proof fn lemma_as_usize(value: Self) {
        let range = usize::MAX as nat + 1;
        assert(value as nat % range < range) by (nonlinear_arith)
            requires
                range > 0,
        ;
    }
}

impl TraceCount for u128 {
    open spec fn ceiling() -> nat {
        u128::MAX as nat
    }

    open spec fn count(self) -> nat {
        self as nat
    }

    open spec fn spec_zero() -> Self {
        0
    }

    open spec fn spec_sat_inc(self) -> Self {
        if self == u128::MAX {
            self
        } else {
            (self + 1) as u128
        }
    }

    open spec fn spec_as_usize(self) -> usize {
        (self as nat % (usize::MAX as nat + 1)) as usize
    }

    fn zero() -> (zero: Self) {
        0
    }

    fn sat_inc(&mut self) {
        if *self != u128::MAX {
            *self = *self + 1;
        }
    }

    fn as_usize(self) -> (index: usize) {
        if self <= usize::MAX as u128 {
            proof {
                lemma_small_mod(self as nat, usize::MAX as nat + 1);
            }
            self as usize
        } else {
            (self % (usize::MAX as u128 + 1)) as usize
        }
    }

    proof fn lemma_count(a: Self, b: Self) {
    }

    proof fn lemma_sat_inc(value: Self) {
    }

    proof fn lemma_as_usize(value: Self) {
        let range = usize::MAX as nat + 1;
        assert(value as nat % range < range) by (nonlinear_arith)
            requires
                range > 0,
        ;
    }
}

} // verus!

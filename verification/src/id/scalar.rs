use vstd::arithmetic::power2::pow2;
use vstd::prelude::*;

use crate::base32::BeBytes;

verus! {

/// Conversion of an unsigned integer to `u64`.
///
/// Values that do not fit saturate to `u64::MAX`: in time-sensitive code a
/// retry is preferable to an error.
pub trait ToU64: Sized {
    /// The `u64` this value converts to.
    spec fn spec_to_u64(self) -> u64;

    fn to_u64(self) -> (r: u64)
        ensures
            r == self.spec_to_u64(),
    ;
}

impl ToU64 for u8 {
    open spec fn spec_to_u64(self) -> u64 {
        self as u64
    }

    fn to_u64(self) -> (r: u64) {
        self as u64
    }
}

impl ToU64 for u16 {
    open spec fn spec_to_u64(self) -> u64 {
        self as u64
    }

    fn to_u64(self) -> (r: u64) {
        self as u64
    }
}

impl ToU64 for u32 {
    open spec fn spec_to_u64(self) -> u64 {
        self as u64
    }

    fn to_u64(self) -> (r: u64) {
        self as u64
    }
}

impl ToU64 for u64 {
    open spec fn spec_to_u64(self) -> u64 {
        self
    }

    fn to_u64(self) -> (r: u64) {
        self
    }
}

impl ToU64 for u128 {
    open spec fn spec_to_u64(self) -> u64 {
        if self <= u64::MAX as u128 {
            self as u64
        } else {
            u64::MAX
        }
    }

    fn to_u64(self) -> (r: u64) {
        if self <= u64::MAX as u128 {
            self as u64
        } else {
            u64::MAX
        }
    }
}

/// The unsigned integer that backs an identifier (`u64` or `u128`), with the
/// handful of operations the generators perform on timestamps and counters.
pub trait IdScalar: Copy + ToU64 + BeBytes {
    /// The mathematical value of this integer.
    spec fn as_nat(self) -> nat;

    /// The largest value of the type.
    spec fn spec_max() -> nat;

    proof fn lemma_bounded(self)
        ensures
            self.as_nat() <= Self::spec_max(),
            self.spec_to_u64() == (if self.as_nat() <= u64::MAX { self.as_nat() } else {
                u64::MAX as nat
            }),
    ;

    proof fn lemma_injective(self, other: Self)
        ensures
            self.as_nat() == other.as_nat() ==> self == other,
    ;

    /// The value seen as an integer of `SIZE` bytes is the same value.
    proof fn lemma_value_is_nat(self)
        ensures
            self.spec_value() == self.as_nat(),
            Self::spec_max() + 1 == pow2(8 * Self::SIZE as nat),
    ;

    fn zero() -> (r: Self)
        ensures
            r.as_nat() == 0,
    ;

    fn one() -> (r: Self)
        ensures
            r.as_nat() == 1,
    ;

    fn is_less(self, other: Self) -> (r: bool)
        ensures
            r == (self.as_nat() < other.as_nat()),
    ;

    fn is_same(self, other: Self) -> (r: bool)
        ensures
            r == (self.as_nat() == other.as_nat()),
    ;

    fn minus(self, other: Self) -> (r: Self)
        requires
            other.as_nat() <= self.as_nat(),
        ensures
            r.as_nat() == self.as_nat() - other.as_nat(),
    ;

    fn plus_one(self) -> (r: Self)
        requires
            self.as_nat() < Self::spec_max(),
        ensures
            r.as_nat() == self.as_nat() + 1,
    ;
}

impl IdScalar for u64 {
    open spec fn as_nat(self) -> nat {
        self as nat
    }

    open spec fn spec_max() -> nat {
        u64::MAX as nat
    }

    proof fn lemma_bounded(self) {
    }

    proof fn lemma_injective(self, other: Self) {
    }

    proof fn lemma_value_is_nat(self) {
        vstd::arithmetic::power2::lemma2_to64();
        crate::base32::lemma_u64_sizes();
    }

    fn zero() -> (r: Self) {
        0
    }

    fn one() -> (r: Self) {
        1
    }

    fn is_less(self, other: Self) -> (r: bool) {
        self < other
    }

    fn is_same(self, other: Self) -> (r: bool) {
        self == other
    }

    fn minus(self, other: Self) -> (r: Self) {
        self - other
    }

    fn plus_one(self) -> (r: Self) {
        self + 1
    }
}

impl IdScalar for u128 {
    open spec fn as_nat(self) -> nat {
        self as nat
    }

    open spec fn spec_max() -> nat {
        u128::MAX as nat
    }

    proof fn lemma_bounded(self) {
    }

    proof fn lemma_injective(self, other: Self) {
    }

    proof fn lemma_value_is_nat(self) {
        vstd::arithmetic::power2::lemma2_to64();
        vstd::arithmetic::power2::lemma_pow2_adds(64, 64);
        crate::base32::lemma_u128_sizes();
    }

    fn zero() -> (r: Self) {
        0
    }

    fn one() -> (r: Self) {
        1
    }

    fn is_less(self, other: Self) -> (r: bool) {
        self < other
    }

    fn is_same(self, other: Self) -> (r: bool) {
        self == other
    }

    fn minus(self, other: Self) -> (r: Self) {
        self - other
    }

    fn plus_one(self) -> (r: Self) {
        self + 1
    }
}

} // verus!

use vstd::arithmetic::div_mod::{lemma_fundamental_div_mod, lemma_small_mod};
use vstd::arithmetic::power2::{lemma_pow2_adds, lemma_pow2_pos, pow2};
use vstd::bits::lemma_u128_shr_is_div;
use vstd::prelude::*;

use super::crockford::{base32_len, be_value, encode_base32, encode_value};

verus! {

proof fn lemma_be_value_bound(s: Seq<u8>)
    ensures
        be_value(s) < pow2(8 * s.len()),
    decreases s.len(),
{
    lemma_pow2_pos(8 * s.len());
    if s.len() > 0 {
        lemma_be_value_bound(s.drop_last());
        let k = (8 * (s.len() - 1)) as nat;
        lemma_pow2_adds(k, 8);
        vstd::arithmetic::power2::lemma2_to64();
        let p = pow2(k);
        let v = be_value(s.drop_last());
        assert(v * 256 + s.last() < p * 256) by (nonlinear_arith)
            requires
                v < p,
                s.last() < 256,
        ;
    }
}

proof fn lemma_byte_bits(x: u128)
    by (bit_vector)
    ensures
        x & 0xFF == x % 256,
        (x & 0xFF) < 256,
{
}

/// Writes the big-endian bytes of `x` into `out`.
fn write_be_bytes(x: u128, out: &mut [u8])
    requires
        old(out)@.len() <= 16,
        x < pow2(8 * old(out)@.len()),
    ensures
        final(out)@.len() == old(out)@.len(),
        be_value(final(out)@) == x,
{
    let n = out.len();
    let mut k: usize = 0;
    proof {
        assert(out@.subrange(0, 0) =~= Seq::<u8>::empty());
        lemma_pow2_pos(8 * n as nat);
        vstd::arithmetic::div_mod::lemma_div_is_ordered_by_denominator(x as int, 1, pow2(
            8 * n as nat,
        ) as int);
        vstd::arithmetic::div_mod::lemma_basic_div(x as int, pow2(8 * n as nat) as int);
    }
    while k < n
        invariant
            n == out@.len(),
            n <= 16,
            k <= n,
            x < pow2(8 * n as nat),
            be_value(out@.subrange(0, k as int)) == x as nat / pow2(8 * (n - k) as nat),
        decreases n - k,
    {
        let ghost before = out@;
        let shift: u128 = (8 * (n - 1 - k)) as u128;
        let ghost p = pow2(shift as nat);
        proof {
            lemma_u128_shr_is_div(x, shift);
            lemma_byte_bits(x >> shift);
            lemma_pow2_adds(shift as nat, 8);
            lemma_pow2_pos(shift as nat);
            vstd::arithmetic::power2::lemma2_to64();
            vstd::arithmetic::div_mod::lemma_div_denominator(x as int, p as int, 256);
            lemma_fundamental_div_mod((x as nat / p) as int, 256);
            assert(8 * (n - k) == shift + 8);
        }
        let byte = ((x >> shift) & 0xFF) as u8;
        out[k] = byte;
        proof {
            let s = out@.subrange(0, k + 1);
            assert(s.drop_last() =~= before.subrange(0, k as int));
            assert(s.last() == byte);
            assert(be_value(s) == be_value(before.subrange(0, k as int)) * 256 + byte);
            assert(8 * (n - (k + 1)) == shift);
        }
        k = k + 1;
    }
    proof {
        assert(out@.subrange(0, n as int) =~= out@);
        vstd::arithmetic::power2::lemma2_to64();
    }
}

/// Reads the big-endian integer held in `bytes`.
fn read_be_bytes(bytes: &[u8]) -> (r: u128)
    requires
        bytes@.len() <= 16,
    ensures
        r == be_value(bytes@),
{
    let mut acc: u128 = 0;
    let mut k: usize = 0;
    proof {
        assert(bytes@.subrange(0, 0) =~= Seq::<u8>::empty());
    }
    while k < bytes.len()
        invariant
            k <= bytes@.len(),
            bytes@.len() <= 16,
            acc == be_value(bytes@.subrange(0, k as int)),
        decreases bytes@.len() - k,
    {
        proof {
            let s = bytes@.subrange(0, k + 1);
            assert(s.drop_last() =~= bytes@.subrange(0, k as int));
            lemma_be_value_bound(bytes@.subrange(0, k as int));
            vstd::arithmetic::power2::lemma2_to64();
            vstd::arithmetic::power2::lemma2_to64_rest();
            lemma_pow2_adds(64, 56);
            if k < 15 {
                vstd::arithmetic::power2::lemma_pow2_strictly_increases(8 * k as nat, 120);
            }
            assert(acc < 0x100_0000_0000_0000_0000_0000_0000_0000);
        }
        acc = acc * 256 + bytes[k] as u128;
        k = k + 1;
    }
    proof {
        assert(bytes@.subrange(0, bytes@.len() as int) =~= bytes@);
    }
    acc
}

/// An unsigned integer with a fixed-size big-endian byte form and a
/// fixed-length Crockford Base32 form.
pub trait BeBytes: Sized + Copy {
    /// The number of bytes.
    const SIZE: usize;

    /// The number of Crockford Base32 characters.
    const BASE32_SIZE: usize;

    /// The bytes, most significant first.
    type ByteArray: Copy;

    /// A buffer for the Crockford Base32 characters.
    type Base32Array: Copy;

    /// The mathematical value of this integer.
    spec fn spec_value(self) -> nat;

    spec fn bytes_view(a: Self::ByteArray) -> Seq<u8>;

    spec fn base32_view(a: Self::Base32Array) -> Seq<u8>;

    proof fn lemma_sizes(self)
        ensures
            Self::SIZE == 4 || Self::SIZE == 8 || Self::SIZE == 16,
            Self::BASE32_SIZE == base32_len(Self::SIZE as nat),
            self.spec_value() < pow2(8 * Self::SIZE as nat),
            forall|a: Self::ByteArray| #[trigger] Self::bytes_view(a).len() == Self::SIZE,
            forall|a: Self::Base32Array| #[trigger] Self::base32_view(a).len()
                == Self::BASE32_SIZE,
    ;

    proof fn lemma_value_injective(a: Self, b: Self)
        ensures
            a.spec_value() == b.spec_value() ==> a == b,
    ;

    /// Returns the bytes, most significant first.
    fn to_be_bytes(self) -> (r: Self::ByteArray)
        ensures
            be_value(Self::bytes_view(r)) == self.spec_value(),
    ;

    /// Reads an integer from its bytes, most significant first.
    fn from_be_bytes(bytes: Self::ByteArray) -> (r: Self)
        ensures
            r.spec_value() == be_value(Self::bytes_view(bytes)),
    ;

    /// A view of the bytes.
    fn byte_slice(a: &Self::ByteArray) -> (r: &[u8])
        ensures
            r@ == Self::bytes_view(*a),
    ;

    /// A zeroed Base32 buffer.
    fn base32_buf() -> (r: Self::Base32Array)
        ensures
            Self::base32_view(r) == Seq::new(Self::BASE32_SIZE as nat, |i: int| 0u8),
    ;

    /// A mutable view of a Base32 buffer.
    fn base32_slice_mut(a: &mut Self::Base32Array) -> (r: &mut [u8])
        ensures
            r@ == Self::base32_view(*old(a)),
            Self::base32_view(*final(a)) == final(r)@,
    ;

    /// A view of a Base32 buffer.
    fn base32_slice(a: &Self::Base32Array) -> (r: &[u8])
        ensures
            r@ == Self::base32_view(*a),
    ;

    /// Zero.
    fn zero_value() -> (r: Self)
        ensures
            r.spec_value() == 0,
    ;

    /// Shifts one Base32 digit in at the bottom: `self * 32 + d`, keeping the
    /// low bits that fit.
    fn push_base32_digit(self, d: u8) -> (r: Self)
        requires
            d < 32,
        ensures
            r.spec_value() == (self.spec_value() * 32 + d) % (pow2(8 * Self::SIZE as nat) as int),
    ;
}

proof fn lemma_push_digit_bits(x: u128, d: u128)
    by (bit_vector)
    requires
        d < 32,
    ensures
        (x << 5u32) | d == (x & 0x7FF_FFFF_FFFF_FFFF_FFFF_FFFF_FFFF_FFFF) * 32 + d,
        x & 0x7FF_FFFF_FFFF_FFFF_FFFF_FFFF_FFFF_FFFF == x % 0x800_0000_0000_0000_0000_0000_0000_0000,
{
}

proof fn lemma_push_digit_mod(x: nat, d: nat, k: nat)
    requires
        d < 32,
        k >= 5,
    ensures
        (x % pow2((k - 5) as nat)) * 32 + d == (x * 32 + d) % pow2(k),
{
    let p = pow2((k - 5) as nat);
    lemma_pow2_adds((k - 5) as nat, 5);
    lemma_pow2_pos((k - 5) as nat);
    vstd::arithmetic::power2::lemma2_to64();
    lemma_fundamental_div_mod(x as int, p as int);
    let q = x / p;
    let r = x % p;
    assert(x * 32 + d == q * (p * 32) + (r * 32 + d)) by (nonlinear_arith)
        requires
            x == p * q + r,
    ;
    assert(r * 32 + d < p * 32) by (nonlinear_arith)
        requires
            r < p,
            d < 32,
    ;
    vstd::arithmetic::div_mod::lemma_mod_add_multiples_vanish(
        (r * 32 + d) as int,
        (p * 32) as int,
    );
    assert((x * 32 + d) % (p * 32) == (r * 32 + d) % (p * 32)) by {
        vstd::arithmetic::div_mod::lemma_mod_multiples_vanish(q as int, (r * 32 + d) as int, (p
            * 32) as int);
    }
    lemma_small_mod((r * 32 + d) as nat, (p * 32) as nat);
}

impl BeBytes for u32 {
    const SIZE: usize = 4;

    const BASE32_SIZE: usize = 7;

    type ByteArray = [u8; 4];

    type Base32Array = [u8; 7];

    open spec fn spec_value(self) -> nat {
        self as nat
    }

    open spec fn bytes_view(a: [u8; 4]) -> Seq<u8> {
        a@
    }

    open spec fn base32_view(a: [u8; 7]) -> Seq<u8> {
        a@
    }

    proof fn lemma_sizes(self) {
        vstd::arithmetic::power2::lemma2_to64();
            vstd::arithmetic::power2::lemma2_to64_rest();
        assert forall|a: [u8; 4]| #[trigger] Self::bytes_view(a).len() == 4 by {
            assert(a@.len() == 4);
        }
        assert forall|a: [u8; 7]| #[trigger] Self::base32_view(a).len() == 7 by {
            assert(a@.len() == 7);
        }
    }

    proof fn lemma_value_injective(a: Self, b: Self) {
    }

    fn to_be_bytes(self) -> (r: [u8; 4]) {
        let mut out = [0u8; 4];
        proof {
            vstd::arithmetic::power2::lemma2_to64();
            vstd::arithmetic::power2::lemma2_to64_rest();
        }
        write_be_bytes(self as u128, &mut out);
        out
    }

    fn from_be_bytes(bytes: [u8; 4]) -> (r: Self) {
        proof {
            lemma_be_value_bound(bytes@);
            vstd::arithmetic::power2::lemma2_to64();
            vstd::arithmetic::power2::lemma2_to64_rest();
        }
        let v = read_be_bytes(&bytes);
        v as u32
    }

    fn byte_slice(a: &[u8; 4]) -> (r: &[u8]) {
        a.as_slice()
    }

    fn base32_buf() -> (r: [u8; 7]) {
        let r = [0u8, 0u8, 0u8, 0u8, 0u8, 0u8, 0u8];
        proof {
            assert(r@ =~= Seq::new(7 as nat, |i: int| 0u8));
        }
        r
    }

    fn base32_slice_mut(a: &mut [u8; 7]) -> (r: &mut [u8]) {
        a
    }

    fn base32_slice(a: &[u8; 7]) -> (r: &[u8]) {
        a.as_slice()
    }

    fn zero_value() -> (r: Self) {
        0
    }

    fn push_base32_digit(self, d: u8) -> (r: Self) {
        let wide: u128 = (self as u128) * 32 + d as u128;
        proof {
            vstd::arithmetic::power2::lemma2_to64();
            vstd::arithmetic::power2::lemma2_to64_rest();
        }
        (wide % 0x1_0000_0000u128) as u32
    }
}

impl BeBytes for u64 {
    const SIZE: usize = 8;

    const BASE32_SIZE: usize = 13;

    type ByteArray = [u8; 8];

    type Base32Array = [u8; 13];

    open spec fn spec_value(self) -> nat {
        self as nat
    }

    open spec fn bytes_view(a: [u8; 8]) -> Seq<u8> {
        a@
    }

    open spec fn base32_view(a: [u8; 13]) -> Seq<u8> {
        a@
    }

    proof fn lemma_sizes(self) {
        vstd::arithmetic::power2::lemma2_to64();
            vstd::arithmetic::power2::lemma2_to64_rest();
        assert forall|a: [u8; 8]| #[trigger] Self::bytes_view(a).len() == 8 by {
            assert(a@.len() == 8);
        }
        assert forall|a: [u8; 13]| #[trigger] Self::base32_view(a).len() == 13 by {
            assert(a@.len() == 13);
        }
    }

    proof fn lemma_value_injective(a: Self, b: Self) {
    }

    fn to_be_bytes(self) -> (r: [u8; 8]) {
        let mut out = [0u8; 8];
        proof {
            vstd::arithmetic::power2::lemma2_to64();
            vstd::arithmetic::power2::lemma2_to64_rest();
        }
        write_be_bytes(self as u128, &mut out);
        out
    }

    fn from_be_bytes(bytes: [u8; 8]) -> (r: Self) {
        proof {
            lemma_be_value_bound(bytes@);
            vstd::arithmetic::power2::lemma2_to64();
            vstd::arithmetic::power2::lemma2_to64_rest();
        }
        let v = read_be_bytes(&bytes);
        v as u64
    }

    fn byte_slice(a: &[u8; 8]) -> (r: &[u8]) {
        a.as_slice()
    }

    fn base32_buf() -> (r: [u8; 13]) {
        let r = [0u8, 0u8, 0u8, 0u8, 0u8, 0u8, 0u8, 0u8, 0u8, 0u8, 0u8, 0u8, 0u8];
        proof {
            assert(r@ =~= Seq::new(13 as nat, |i: int| 0u8));
        }
        r
    }

    fn base32_slice_mut(a: &mut [u8; 13]) -> (r: &mut [u8]) {
        a
    }

    fn base32_slice(a: &[u8; 13]) -> (r: &[u8]) {
        a.as_slice()
    }

    fn zero_value() -> (r: Self) {
        0
    }

    fn push_base32_digit(self, d: u8) -> (r: Self) {
        let wide: u128 = (self as u128) * 32 + d as u128;
        proof {
            vstd::arithmetic::power2::lemma2_to64();
            vstd::arithmetic::power2::lemma2_to64_rest();
        }
        (wide % 0x1_0000_0000_0000_0000u128) as u64
    }
}

impl BeBytes for u128 {
    const SIZE: usize = 16;

    const BASE32_SIZE: usize = 26;

    type ByteArray = [u8; 16];

    type Base32Array = [u8; 26];

    open spec fn spec_value(self) -> nat {
        self as nat
    }

    open spec fn bytes_view(a: [u8; 16]) -> Seq<u8> {
        a@
    }

    open spec fn base32_view(a: [u8; 26]) -> Seq<u8> {
        a@
    }

    proof fn lemma_sizes(self) {
        vstd::arithmetic::power2::lemma2_to64();
            vstd::arithmetic::power2::lemma2_to64_rest();
            lemma_pow2_adds(64, 64);
        assert forall|a: [u8; 16]| #[trigger] Self::bytes_view(a).len() == 16 by {
            assert(a@.len() == 16);
        }
        assert forall|a: [u8; 26]| #[trigger] Self::base32_view(a).len() == 26 by {
            assert(a@.len() == 26);
        }
    }

    proof fn lemma_value_injective(a: Self, b: Self) {
    }

    fn to_be_bytes(self) -> (r: [u8; 16]) {
        let mut out = [0u8; 16];
        proof {
            vstd::arithmetic::power2::lemma2_to64();
            vstd::arithmetic::power2::lemma2_to64_rest();
            lemma_pow2_adds(64, 64);
        }
        write_be_bytes(self as u128, &mut out);
        out
    }

    fn from_be_bytes(bytes: [u8; 16]) -> (r: Self) {
        proof {
            lemma_be_value_bound(bytes@);
            vstd::arithmetic::power2::lemma2_to64();
            vstd::arithmetic::power2::lemma2_to64_rest();
            lemma_pow2_adds(64, 64);
        }
        let v = read_be_bytes(&bytes);
        v as u128
    }

    fn byte_slice(a: &[u8; 16]) -> (r: &[u8]) {
        a.as_slice()
    }

    fn base32_buf() -> (r: [u8; 26]) {
        let r = [0u8, 0u8, 0u8, 0u8, 0u8, 0u8, 0u8, 0u8, 0u8, 0u8, 0u8, 0u8, 0u8, 0u8, 0u8, 0u8, 0u8, 0u8, 0u8, 0u8, 0u8, 0u8, 0u8, 0u8, 0u8, 0u8];
        proof {
            assert(r@ =~= Seq::new(26 as nat, |i: int| 0u8));
        }
        r
    }

    fn base32_slice_mut(a: &mut [u8; 26]) -> (r: &mut [u8]) {
        a
    }

    fn base32_slice(a: &[u8; 26]) -> (r: &[u8]) {
        a.as_slice()
    }

    fn zero_value() -> (r: Self) {
        0
    }

    fn push_base32_digit(self, d: u8) -> (r: Self) {
        let r = (self << 5u32) | (d as u128);
        proof {
            lemma_push_digit_bits(self, d as u128);
            lemma_push_digit_mod(self as nat, d as nat, 128);
            vstd::arithmetic::power2::lemma2_to64();
            vstd::arithmetic::power2::lemma2_to64_rest();
            lemma_pow2_adds(64, 64);
            lemma_pow2_adds(64, 59);
        }
        r
    }
}

/// Reading back the bytes of an integer gives the integer: when `bytes` is
/// what `to_be_bytes` gave for `x` and `y` is what `from_be_bytes` gives for
/// `bytes`, then `y == x`.
pub proof fn lemma_be_bytes_roundtrip<T: BeBytes>(x: T, bytes: T::ByteArray, y: T)
    requires
        be_value(T::bytes_view(bytes)) == x.spec_value(),
        y.spec_value() == be_value(T::bytes_view(bytes)),
    ensures
        y == x,
{
    T::lemma_value_injective(x, y);
}

/// The sizes of `u64`.
pub proof fn lemma_u64_sizes()
    ensures
        <u64 as BeBytes>::SIZE == 8,
        <u64 as BeBytes>::BASE32_SIZE == 13,
{
}

/// The sizes of `u128`.
pub proof fn lemma_u128_sizes()
    ensures
        <u128 as BeBytes>::SIZE == 16,
        <u128 as BeBytes>::BASE32_SIZE == 26,
{
}

} // verus!

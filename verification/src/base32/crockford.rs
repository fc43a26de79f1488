use vstd::arithmetic::div_mod::{lemma_div_plus_one, lemma_fundamental_div_mod, lemma_small_mod};
use vstd::arithmetic::power2::{lemma_pow2_adds, lemma_pow2_pos, pow2};
use vstd::bits::{lemma_u16_pow2_no_overflow, lemma_u16_shl_is_mul, lemma_u16_shr_is_div};
use vstd::prelude::*;

use super::be_bytes::BeBytes;
use vstd::string::StringSliceAdditionalSpecFns;
use super::error::Base32Error;

verus! {

/// The Crockford Base32 character of the digit `d` (`0 <= d < 32`), from the
/// alphabet `0123456789ABCDEFGHJKMNPQRSTVWXYZ`.
pub open spec fn digit_char(d: nat) -> u8 {
    if d < 10 {
        (48 + d) as u8
    } else if d < 18 {
        (65 + d - 10) as u8
    } else if d < 20 {
        (74 + d - 18) as u8
    } else if d < 22 {
        (77 + d - 20) as u8
    } else if d < 27 {
        (80 + d - 22) as u8
    } else {
        (86 + d - 27) as u8
    }
}

/// The digit an upper-case or non-letter byte stands for: the alphabet's own
/// characters, and the aliases `O` for 0 and `I`, `L` for 1.
pub open spec fn upper_char_digit(b: u8) -> Option<u8> {
    if 48 <= b <= 57 {
        Some((b - 48) as u8)
    } else if 65 <= b <= 72 {
        Some((b - 55) as u8)
    } else if b == 73 || b == 76 {
        Some(1)
    } else if 74 <= b <= 75 {
        Some((b - 56) as u8)
    } else if 77 <= b <= 78 {
        Some((b - 57) as u8)
    } else if b == 79 {
        Some(0)
    } else if 80 <= b <= 84 {
        Some((b - 58) as u8)
    } else if 86 <= b <= 90 {
        Some((b - 59) as u8)
    } else {
        None
    }
}

/// The digit a byte stands for in Crockford Base32, if any; lower-case
/// letters read as their upper-case forms.
pub open spec fn char_digit(b: u8) -> Option<u8> {
    if 97 <= b <= 122 {
        upper_char_digit((b - 32) as u8)
    } else {
        upper_char_digit(b)
    }
}

/// The big-endian value of a byte sequence.
pub open spec fn be_value(s: Seq<u8>) -> nat
    decreases s.len(),
{
    if s.len() == 0 {
        0
    } else {
        (be_value(s.drop_last()) * 256 + s.last()) as nat
    }
}

/// The last `len` base-32 digits of `v`, most significant first, as
/// Crockford Base32 characters.
pub open spec fn encode_value(v: nat, len: nat) -> Seq<u8>
    decreases len,
{
    if len == 0 {
        seq![]
    } else {
        encode_value(v / 32, (len - 1) as nat).push(digit_char(v % 32))
    }
}

/// The number of Crockford Base32 characters that encode `bytes` bytes.
pub open spec fn base32_len(bytes: nat) -> nat {
    (bytes * 8 + 4) / 5
}

/// Reading a Crockford Base32 string: the value of its digits, or the index
/// of its first character outside the alphabet.
pub open spec fn decode_chars(s: Seq<u8>) -> Result<nat, nat>
    decreases s.len(),
{
    if s.len() == 0 {
        Ok(0)
    } else {
        match decode_chars(s.drop_last()) {
            Err(i) => Err(i),
            Ok(v) => match char_digit(s.last()) {
                None => Err((s.len() - 1) as nat),
                Some(d) => Ok((v * 32 + d) as nat),
            },
        }
    }
}

/// The Crockford Base32 character of the digit `d`.
fn encode_digit(d: u16) -> (r: u8)
    requires
        d < 32,
    ensures
        r == digit_char(d as nat),
{
    if d < 10 {
        48 + d as u8
    } else if d < 18 {
        65 + (d - 10) as u8
    } else if d < 20 {
        74 + (d - 18) as u8
    } else if d < 22 {
        77 + (d - 20) as u8
    } else if d < 27 {
        80 + (d - 22) as u8
    } else {
        86 + (d - 27) as u8
    }
}

/// The digit a byte stands for, or `NO_VALUE` if it is not a Crockford
/// Base32 character.
fn decode_char(b: u8) -> (r: u8)
    ensures
        char_digit(b) matches Some(d) ==> r == d,
        char_digit(b) is None ==> r == NO_VALUE,
{
    let c = if 97 <= b && b <= 122 {
        b - 32
    } else {
        b
    };
    if 48 <= c && c <= 57 {
        c - 48
    } else if 65 <= c && c <= 72 {
        c - 55
    } else if c == 73 || c == 76 {
        1
    } else if 74 <= c && c <= 75 {
        c - 56
    } else if 77 <= c && c <= 78 {
        c - 57
    } else if c == 79 {
        0
    } else if 80 <= c && c <= 84 {
        c - 58
    } else if 86 <= c && c <= 90 {
        c - 59
    } else {
        NO_VALUE
    }
}

/// Marks a byte outside the alphabet.
pub const NO_VALUE: u8 = 255;

proof fn lemma_accumulator_shift(acc: u16, b: u16)
    by (bit_vector)
    requires
        acc < 16,
        b < 256,
    ensures
        (acc << 8u16) | b == acc * 256 + b,
{
}

proof fn lemma_accumulator_split(x: u16, y: u16, s: u16, m: u16)
    by (bit_vector)
    requires
        s < 16,
        m + 1 == 1u16 << s,
    ensures
        y < 32 ==> y & 0x1F == y,
        x & m == x % (1u16 << s),
{
}

proof fn lemma_encode_value_push(q: nat, d: nat, len: nat)
    requires
        d < 32,
    ensures
        encode_value(q * 32 + d, len + 1) == encode_value(q, len).push(digit_char(d)),
{
    lemma_fundamental_div_mod((q * 32 + d) as int, 32);
    assert((q * 32 + d) / 32 == q) by (nonlinear_arith)
        requires
            d < 32,
    ;
    assert((q * 32 + d) % 32 == d) by (nonlinear_arith)
        requires
            d < 32,
    ;
}

/// Encodes the big-endian integer held in `input` as Crockford Base32 into
/// `buf_slice`, most significant digit first; the top digit is padded with
/// zero bits.
///
/// The buffer must have exactly the length that encodes `input`.
pub fn encode_base32(input: &[u8], buf_slice: &mut [u8])
    requires
        old(buf_slice)@.len() == base32_len(input@.len() as nat),
        input@.len() * 8 + 4 <= usize::MAX,
    ensures
        final(buf_slice)@ == encode_value(be_value(input@), old(buf_slice)@.len() as nat),
{
    let input_bits = input.len() * 8;
    let output_chars = buf_slice.len();
    let total_bits = output_chars * 5;
    let mut bits: u16 = (total_bits - input_bits) as u16;
    let mut acc = 0_u16;
    let mask = 0x1F_u16;
    let mut out: usize = 0;
    let ghost mut q: nat = 0;
    proof {
        lemma_pow2_pos(bits as nat);
        assert(input@.subrange(0, 0) =~= Seq::<u8>::empty());
    }
    let mut i: usize = 0;
    while i < input.len()
        invariant
            0 <= i <= input@.len(),
            input@.len() * 8 + 4 <= usize::MAX,
            buf_slice@.len() == output_chars,
            output_chars == base32_len(input@.len() as nat),
            total_bits == output_chars * 5,
            bits < 5,
            mask == 0x1F,
            out * 5 + bits as nat == (total_bits - input_bits) + i * 8,
            input_bits == input@.len() * 8,
            total_bits >= input_bits,
            acc < pow2(bits as nat),
            be_value(input@.subrange(0, i as int)) == q * pow2(bits as nat) + acc,
            buf_slice@.subrange(0, out as int) == encode_value(q, out as nat),
        decreases input@.len() - i,
    {
        let b = input[i];
        proof {
            vstd::arithmetic::power2::lemma2_to64();
            assert(acc < 16);
            lemma_accumulator_shift(acc, b as u16);
            let s = input@.subrange(0, i + 1);
            assert(s.drop_last() =~= input@.subrange(0, i as int));
            lemma_pow2_adds(bits as nat, 8);
            assert(q * pow2(bits as nat) * 256 == q * pow2((bits + 8) as nat)) by (nonlinear_arith)
                requires
                    pow2((bits + 8) as nat) == pow2(bits as nat) * pow2(8),
                    pow2(8) == 256,
            ;
            assert(acc * 256 + b < pow2((bits + 8) as nat)) by (nonlinear_arith)
                requires
                    acc < pow2(bits as nat),
                    pow2((bits + 8) as nat) == pow2(bits as nat) * 256,
                    b < 256,
            ;
        }
        acc = (acc << 8u16) | b as u16;
        bits = bits + 8;
        while bits >= 5
            invariant
                5 <= bits + 5 <= 17,
                mask == 0x1F,
                i < input@.len(),
                input@.len() * 8 + 4 <= usize::MAX,
                buf_slice@.len() == output_chars,
                output_chars == base32_len(input@.len() as nat),
                total_bits == output_chars * 5,
                out * 5 + bits as nat == (total_bits - input_bits) + (i + 1) * 8,
                input_bits == input@.len() * 8,
                total_bits >= input_bits,
                acc < pow2(bits as nat),
                be_value(input@.subrange(0, i + 1)) == q * pow2(bits as nat) + acc,
                buf_slice@.subrange(0, out as int) == encode_value(q, out as nat),
            decreases bits,
        {
            bits = bits - 5;
            proof {
                vstd::arithmetic::power2::lemma2_to64();
                lemma_u16_shr_is_div(acc, bits);
                lemma_pow2_adds(bits as nat, 5);
                lemma_pow2_pos(bits as nat);
                lemma_u16_pow2_no_overflow(bits as nat);
                lemma_u16_shl_is_mul(1, bits);
                let p = pow2(bits as nat);
                assert(acc as nat / p < 32) by (nonlinear_arith)
                    requires
                        acc < p * 32,
                        p > 0,
                ;
                assert(acc >> bits == acc as nat / p);
                lemma_accumulator_split(acc, acc >> bits, bits, (p - 1) as u16);
                assert(mask == 0x1F);
                lemma_fundamental_div_mod(acc as int, p as int);
                assert(out < output_chars) by (nonlinear_arith)
                    requires
                        out * 5 + bits + 5 == (total_bits - input_bits) + (i + 1) * 8,
                        i < input@.len(),
                        input_bits == input@.len() * 8,
                        total_bits == output_chars * 5,
                ;
            }
            let index = (acc >> bits) & mask;
            let ghost d = index as nat;
            buf_slice[out] = encode_digit(index);
            let low_mask: u16 = (1u16 << bits) - 1;
            acc = acc & low_mask;
            proof {
                let p = pow2(bits as nat);
                lemma_encode_value_push(q, d, out as nat);
                assert(q * pow2((bits + 5) as nat) + (d * p + acc) == (q * 32 + d) * p + acc)
                    by (nonlinear_arith)
                    requires
                        pow2((bits + 5) as nat) == p * 32,
                ;
                assert(buf_slice@.subrange(0, out + 1) =~= buf_slice@.subrange(0, out as int).push(
                    digit_char(d),
                ));
                q = q * 32 + d;
            }
            out = out + 1;
        }
        i = i + 1;
    }
    proof {
        assert(input@.subrange(0, input@.len() as int) =~= input@);
        assert(out == output_chars) by (nonlinear_arith)
            requires
                out * 5 + bits == (total_bits - input_bits) + input@.len() * 8,
                bits < 5,
                total_bits == output_chars * 5,
                input_bits == input@.len() * 8,
        ;
        assert(bits == 0);
        vstd::arithmetic::power2::lemma2_to64();
        assert(acc == 0);
        assert(be_value(input@) == q);
        assert(buf_slice@.subrange(0, out as int) =~= buf_slice@);
    }
}

/// A string that fails to decode fails at the same index however it goes on.
proof fn lemma_decode_prefix_err(s: Seq<u8>, j: int, i: nat)
    requires
        0 <= j <= s.len(),
        decode_chars(s.subrange(0, j)) == Err::<nat, nat>(i),
    ensures
        decode_chars(s) == Err::<nat, nat>(i),
    decreases s.len() - j,
{
    if j < s.len() {
        let t = s.subrange(0, j + 1);
        assert(t.drop_last() =~= s.subrange(0, j));
        lemma_decode_prefix_err(s, j + 1, i);
    } else {
        assert(s.subrange(0, j) =~= s);
    }
}

/// Shifting a digit into a value reduced modulo `m` agrees with shifting it
/// into the value and then reducing.
proof fn lemma_shift_in_mod(v: nat, d: nat, m: nat)
    requires
        m > 0,
    ensures
        (((v % m) * 32 + d) as int) % (m as int) == ((v * 32 + d) as int) % (m as int),
{
    lemma_fundamental_div_mod(v as int, m as int);
    let q = v / m;
    let r = v % m;
    assert(v * 32 + d == m * (q * 32) + (r * 32 + d)) by (nonlinear_arith)
        requires
            v == m * q + r,
    ;
    vstd::arithmetic::div_mod::lemma_mod_multiples_vanish((q * 32) as int, (r * 32 + d) as int, m as int);
}

/// Decodes a Crockford Base32 string into the integer type `T`, most
/// significant digit first.
///
/// Lower-case letters and the aliases `O`/`o` (for `0`) and `I`/`i`/`L`/`l`
/// (for `1`) are accepted. Bits beyond the width of `T` are shifted out at
/// the top. The length is not checked here.
pub fn decode_base32<T: BeBytes, E>(encoded: &str) -> (r: Result<T, Base32Error<E>>)
    ensures
        match decode_chars(encoded.spec_bytes()) {
            Ok(v) => r is Ok && r->Ok_0.spec_value() == (v as int) % (pow2(8 * T::SIZE as nat) as int),
            Err(i) => r == Err::<T, Base32Error<E>>(
                Base32Error::DecodeInvalidAscii { byte: encoded.spec_bytes()[i as int], index: i as usize },
            ),
        },
{
    let bytes = encoded.as_bytes();
    let mut acc = T::zero_value();
    let ghost m = pow2(8 * T::SIZE as nat);
    proof {
        acc.lemma_sizes();
        lemma_pow2_pos(8 * T::SIZE as nat);
        assert(bytes@.subrange(0, 0) =~= Seq::<u8>::empty());
        lemma_small_mod(0, m);
    }
    let mut i: usize = 0;
    while i < bytes.len()
        invariant
            bytes@ == encoded.spec_bytes(),
            i <= bytes@.len(),
            m == pow2(8 * T::SIZE as nat),
            m > 0,
            decode_chars(bytes@.subrange(0, i as int)) is Ok,
            acc.spec_value() == (decode_chars(bytes@.subrange(0, i as int))->Ok_0 as int) % (m as int),
        decreases bytes@.len() - i,
    {
        let b = bytes[i];
        let val = decode_char(b);
        let ghost t = bytes@.subrange(0, i + 1);
        proof {
            assert(t.drop_last() =~= bytes@.subrange(0, i as int));
            assert(t.last() == b);
        }
        if val == NO_VALUE {
            proof {
                assert(decode_chars(t) == Err::<nat, nat>(i as nat));
                lemma_decode_prefix_err(bytes@, i + 1, i as nat);
            }
            return Err(Base32Error::DecodeInvalidAscii { byte: b, index: i });
        }
        proof {
            let v = decode_chars(bytes@.subrange(0, i as int))->Ok_0;
            assert(char_digit(b) == Some(val));
            assert(val < 32);
            lemma_shift_in_mod(v, val as nat, m);
            assert(decode_chars(t) == Ok::<nat, nat>((v * 32 + val) as nat));
        }
        acc = acc.push_base32_digit(val);
        i = i + 1;
    }
    proof {
        assert(bytes@.subrange(0, i as int) =~= bytes@);
    }
    Ok(acc)
}

} // verus!

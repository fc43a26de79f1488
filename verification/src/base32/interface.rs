use vstd::arithmetic::power2::{lemma_pow2_adds, lemma_pow2_pos, pow2};
use vstd::prelude::*;
use vstd::string::StringSliceAdditionalSpecFns;

use super::be_bytes::BeBytes;
use super::crockford::{
    base32_len, char_digit, decode_base32, decode_chars, digit_char, encode_base32, encode_value,
};
use super::error::Base32Error;
use crate::id::Id;

verus! {

/// The identifier whose raw integer has the value `v`.
pub open spec fn id_with_value<ID: Id>(v: nat) -> ID {
    choose|id: ID| id.spec_raw().spec_value() == v
}

/// The fixed-length Crockford Base32 encoding of an identifier's raw integer.
pub open spec fn spec_encode_id<ID: Id>(id: ID) -> Seq<u8> {
    encode_value(id.spec_raw().spec_value(), <ID::Ty as BeBytes>::BASE32_SIZE as nat)
}

/// What decoding the bytes `s` into an identifier gives, before any check of
/// reserved bits: the length must be the fixed length of the encoding, every
/// byte must be a Crockford Base32 character, and digits beyond the width of
/// the raw integer are shifted out at the top.
pub open spec fn spec_decode_id<ID: Id>(s: Seq<u8>) -> Result<ID, Base32Error<ID>> {
    if s.len() != <ID::Ty as BeBytes>::BASE32_SIZE {
        Err(Base32Error::DecodeInvalidLen { len: s.len() as usize })
    } else {
        match decode_chars(s) {
            Err(i) => Err(Base32Error::DecodeInvalidAscii { byte: s[i as int], index: i as usize }),
            Ok(v) => Ok(id_with_value::<ID>(v % pow2(8 * <ID::Ty as BeBytes>::SIZE as nat))),
        }
    }
}

/// The characters of a string of ASCII bytes, one per byte.
pub open spec fn ascii_chars(bytes: Seq<u8>) -> Seq<char> {
    Seq::new(bytes.len(), |i: int| bytes[i] as char)
}

/// Reads bytes that are all ASCII as a string slice, with `core::str::from_utf8`.
///
/// ASCII bytes are valid UTF-8, so `from_utf8` returns `Ok`, and the string
/// it gives holds the same bytes, one character per byte.
#[verifier::external_body]
pub(crate) fn ascii_str(bytes: &[u8]) -> (s: &str)
    requires
        forall|i: int| 0 <= i < bytes@.len() ==> bytes@[i] < 128,
    ensures
        s.spec_bytes() == bytes@,
        s@ == ascii_chars(bytes@),
{
    match core::str::from_utf8(bytes) {
        Ok(s) => s,
        Err(_) => "",
    }
}

/// An identifier is the one with its own raw value.
pub proof fn lemma_id_with_value<ID: Id>(id: ID)
    ensures
        id_with_value::<ID>(id.spec_raw().spec_value()) == id,
{
    let c = id_with_value::<ID>(id.spec_raw().spec_value());
    assert(c.spec_raw().spec_value() == id.spec_raw().spec_value());
    <ID::Ty as BeBytes>::lemma_value_injective(c.spec_raw(), id.spec_raw());
    ID::lemma_raw_injective(c, id);
}

/// Every digit comes back from its character.
pub proof fn lemma_digit_roundtrip(d: nat)
    requires
        d < 32,
    ensures
        char_digit(digit_char(d)) == Some(d as u8),
        digit_char(d) < 128,
{
}

/// Encoding gives `len` characters of the alphabet.
pub proof fn lemma_encode_chars(v: nat, len: nat)
    ensures
        encode_value(v, len).len() == len,
        forall|i: int|
            0 <= i < len ==> #[trigger] encode_value(v, len)[i] < 128 && char_digit(
                encode_value(v, len)[i],
            ) is Some,
    decreases len,
{
    if len > 0 {
        lemma_encode_chars(v / 32, (len - 1) as nat);
        lemma_digit_roundtrip(v % 32);
    }
}

/// Decoding the `len`-character encoding of `v` gives back `v` modulo
/// `32^len`.
pub proof fn lemma_decode_encode_value(v: nat, len: nat)
    ensures
        decode_chars(encode_value(v, len)) == Ok::<nat, nat>(v % pow2(5 * len)),
    decreases len,
{
    let s = encode_value(v, len);
    if len == 0 {
        assert(pow2(0) == 1) by {
            vstd::arithmetic::power2::lemma2_to64();
        }
    } else {
        let l1 = (len - 1) as nat;
        lemma_decode_encode_value(v / 32, l1);
        lemma_digit_roundtrip(v % 32);
        assert(s.drop_last() =~= encode_value(v / 32, l1));
        lemma_pow2_pos(5 * l1);
        lemma_pow2_adds(5, 5 * l1);
        vstd::arithmetic::power2::lemma2_to64();
        vstd::arithmetic::div_mod::lemma_mod_breakdown(v as int, 32, pow2(5 * l1) as int);
        assert(5 * len == 5 + 5 * l1);
    }
}

/// An encoding is long enough to hold every value of its integer type.
proof fn lemma_encoding_holds_value<T: BeBytes>(x: T)
    ensures
        pow2(8 * T::SIZE as nat) <= pow2(5 * T::BASE32_SIZE as nat),
        x.spec_value() < pow2(8 * T::SIZE as nat),
{
    x.lemma_sizes();
    if 8 * T::SIZE < 5 * T::BASE32_SIZE {
        vstd::arithmetic::power2::lemma_pow2_strictly_increases(
            8 * T::SIZE as nat,
            5 * T::BASE32_SIZE as nat,
        );
    }
}

/// Decoding the fixed-length encoding of an integer gives back the integer:
/// the digits decode to its value, which fits in the integer type.
pub proof fn lemma_decode_encode_int<T: BeBytes>(x: T)
    ensures
        decode_chars(encode_value(x.spec_value(), T::BASE32_SIZE as nat)) == Ok::<nat, nat>(
            x.spec_value(),
        ),
        x.spec_value() % pow2(8 * T::SIZE as nat) == x.spec_value(),
{
    let v = x.spec_value();
    let len = T::BASE32_SIZE as nat;
    lemma_encoding_holds_value(x);
    lemma_decode_encode_value(v, len);
    vstd::arithmetic::div_mod::lemma_small_mod(v, pow2(5 * len));
    vstd::arithmetic::div_mod::lemma_small_mod(v, pow2(8 * T::SIZE as nat));
}

/// Decoding the encoding of an identifier gives back the identifier.
pub proof fn lemma_decode_encode_id<ID: Id>(id: ID)
    ensures
        spec_encode_id(id).len() == <ID::Ty as BeBytes>::BASE32_SIZE,
        spec_decode_id::<ID>(spec_encode_id(id)) == Ok::<ID, Base32Error<ID>>(id),
{
    let raw = id.spec_raw();
    let v = raw.spec_value();
    let len = <ID::Ty as BeBytes>::BASE32_SIZE as nat;
    lemma_encoding_holds_value(raw);
    lemma_encode_chars(v, len);
    lemma_decode_encode_value(v, len);
    vstd::arithmetic::div_mod::lemma_small_mod(v, pow2(5 * len));
    vstd::arithmetic::div_mod::lemma_small_mod(v, pow2(8 * <ID::Ty as BeBytes>::SIZE as nat));
    lemma_id_with_value(id);
}

/// Decoding depends only on the digit each character stands for: strings
/// whose characters agree up to case and the aliases `O`/`o` for `0` and
/// `I`/`i`/`L`/`l` for `1` decode alike.
pub proof fn lemma_decode_same_digits(s: Seq<u8>, t: Seq<u8>)
    requires
        s.len() == t.len(),
        forall|i: int| 0 <= i < s.len() ==> char_digit(#[trigger] s[i]) == char_digit(t[i]),
    ensures
        decode_chars(s) == decode_chars(t),
    decreases s.len(),
{
    if s.len() > 0 {
        lemma_decode_same_digits(s.drop_last(), t.drop_last());
    }
}

/// A lower-case letter stands for the same digit as its upper-case form, and
/// the aliases stand for `0` and `1`.
pub proof fn lemma_char_digit_case(b: u8)
    ensures
        65 <= b <= 90 ==> char_digit((b + 32) as u8) == char_digit(b),
        char_digit(79) == char_digit(48),
        char_digit(111) == char_digit(48),
        char_digit(73) == char_digit(49),
        char_digit(105) == char_digit(49),
        char_digit(76) == char_digit(49),
        char_digit(108) == char_digit(49),
{
}

/// Byte-wise lexicographic order of two strings of the same length: the first
/// byte where they differ is smaller in `a`.
pub open spec fn lex_lt(a: Seq<u8>, b: Seq<u8>) -> bool
    decreases a.len(),
{
    if a.len() == 0 || b.len() == 0 {
        false
    } else {
        lex_lt(a.drop_last(), b.drop_last()) || (a.drop_last() == b.drop_last() && a.last()
            < b.last())
    }
}

/// The alphabet is in ascending byte order.
proof fn lemma_digit_char_increasing(d1: nat, d2: nat)
    requires
        d1 < d2 < 32,
    ensures
        digit_char(d1) < digit_char(d2),
{
}

/// Values that fit in `len` digits have distinct encodings.
proof fn lemma_encode_injective(v: nat, w: nat, len: nat)
    requires
        v < pow2(5 * len),
        w < pow2(5 * len),
        encode_value(v, len) == encode_value(w, len),
    ensures
        v == w,
{
    lemma_decode_encode_value(v, len);
    lemma_decode_encode_value(w, len);
    vstd::arithmetic::div_mod::lemma_small_mod(v, pow2(5 * len));
    vstd::arithmetic::div_mod::lemma_small_mod(w, pow2(5 * len));
}

/// Encodings sort as the values they encode: for values that fit in `len`
/// digits, the smaller value has the lexicographically smaller encoding.
pub proof fn lemma_encode_order(v: nat, w: nat, len: nat)
    requires
        v < pow2(5 * len),
        w < pow2(5 * len),
    ensures
        v < w <==> lex_lt(encode_value(v, len), encode_value(w, len)),
    decreases len,
{
    let a = encode_value(v, len);
    let b = encode_value(w, len);
    lemma_encode_chars(v, len);
    lemma_encode_chars(w, len);
    if len == 0 {
        vstd::arithmetic::power2::lemma2_to64();
    } else {
        let l1 = (len - 1) as nat;
        let p = pow2(5 * l1);
        lemma_pow2_pos(5 * l1);
        lemma_pow2_adds(5, 5 * l1);
        vstd::arithmetic::power2::lemma2_to64();
        assert(5 * len == 5 + 5 * l1);
        let q = v / 32;
        let r = v % 32;
        let q2 = w / 32;
        let r2 = w % 32;
        vstd::arithmetic::div_mod::lemma_fundamental_div_mod(v as int, 32);
        vstd::arithmetic::div_mod::lemma_fundamental_div_mod(w as int, 32);
        assert(q < p) by {
            vstd::arithmetic::div_mod::lemma_div_by_multiple_is_strongly_ordered(
                v as int,
                (32 * p) as int,
                p as int,
                32,
            );
            vstd::arithmetic::div_mod::lemma_div_multiples_vanish(p as int, 32);
        }
        assert(q2 < p) by {
            vstd::arithmetic::div_mod::lemma_div_by_multiple_is_strongly_ordered(
                w as int,
                (32 * p) as int,
                p as int,
                32,
            );
            vstd::arithmetic::div_mod::lemma_div_multiples_vanish(p as int, 32);
        }
        lemma_encode_order(q, q2, l1);
        assert(a.drop_last() =~= encode_value(q, l1));
        assert(b.drop_last() =~= encode_value(q2, l1));
        if encode_value(q, l1) == encode_value(q2, l1) {
            lemma_encode_injective(q, q2, l1);
        }
        if r < r2 {
            lemma_digit_char_increasing(r, r2);
        } else if r2 < r {
            lemma_digit_char_increasing(r2, r);
        }
    }
}

/// Encodings of identifiers sort as their raw integers.
pub proof fn lemma_encode_id_order<ID: Id>(a: ID, b: ID)
    ensures
        a.spec_raw().spec_value() < b.spec_raw().spec_value() <==> lex_lt(
            spec_encode_id(a),
            spec_encode_id(b),
        ),
{
    lemma_encoding_holds_value(a.spec_raw());
    lemma_encoding_holds_value(b.spec_raw());
    lemma_encode_order(
        a.spec_raw().spec_value(),
        b.spec_raw().spec_value(),
        <ID::Ty as BeBytes>::BASE32_SIZE as nat,
    );
}

/// Access to the Crockford Base32 form of an identifier's raw integer.
pub trait Base32Ext: Id {
    /// A zeroed buffer of the length of the encoding.
    fn inner_buf() -> (r: <Self::Ty as BeBytes>::Base32Array)
        ensures
            <Self::Ty as BeBytes>::base32_view(r) == Seq::new(
                <Self::Ty as BeBytes>::BASE32_SIZE as nat,
                |i: int| 0u8,
            ),
    {
        <Self::Ty as BeBytes>::base32_buf()
    }

    /// Writes the encoding of this identifier into `buf`.
    fn inner_encode_to_buf(&self, buf: &mut <Self::Ty as BeBytes>::Base32Array)
        ensures
            <Self::Ty as BeBytes>::base32_view(*final(buf)) == spec_encode_id(*self),
    {
        let raw = self.to_raw();
        let bytes = raw.to_be_bytes();
        proof {
            raw.lemma_sizes();
        }
        let input = <Self::Ty as BeBytes>::byte_slice(&bytes);
        let out = <Self::Ty as BeBytes>::base32_slice_mut(buf);
        encode_base32(input, out);
    }

    /// Decodes a string into an identifier, without checking reserved bits.
    fn inner_decode(s: &str) -> (r: Result<Self, Base32Error<Self>>)
        ensures
            r == spec_decode_id::<Self>(s.spec_bytes()),
    {
        let len = s.as_bytes().len();
        if len != <Self::Ty as BeBytes>::BASE32_SIZE {
            return Err(Base32Error::DecodeInvalidLen { len });
        }
        match decode_base32::<Self::Ty, Self>(s) {
            Ok(raw) => {
                let id = Self::from_raw(raw);
                proof {
                    lemma_id_with_value(id);
                    let v = decode_chars(s.spec_bytes())->Ok_0;
                    let m = pow2(8 * <Self::Ty as BeBytes>::SIZE as nat);
                    assert((v as int) % (m as int) == v % m);
                }
                Ok(id)
            },
            Err(e) => Err(e),
        }
    }
}

impl<ID: Id> Base32Ext for ID {

}

} // verus!

use core::marker::PhantomData;
use vstd::prelude::*;
use vstd::string::StringSliceAdditionalSpecFns;

use super::be_bytes::BeBytes;
use super::error::Base32Error;
use super::snowflake::all_ascii;
use crate::generator::Error;
use super::interface::{
    ascii_chars, ascii_str, lemma_decode_encode_id, lemma_encode_chars, spec_decode_id, spec_encode_id, Base32Ext,
};
use crate::id::{Id, UlidId, ULID};

verus! {

/// What decoding a string into a ULID gives: the structural decode, then
/// `DecodeOverflow` for an identifier whose reserved bits are set, each
/// failure wrapped in the crate's error type.
pub open spec fn spec_decode_ulid<ID: UlidId>(s: Seq<u8>) -> Result<ID, Error<ID>> {
    match spec_decode_id::<ID>(s) {
        Ok(id) => if id.spec_is_valid() {
            Ok(id)
        } else {
            Err(Error::Base32Error(Base32Error::DecodeOverflow { id }))
        },
        Err(e) => Err(Error::Base32Error(e)),
    }
}

/// Decoding the encoding of a valid ULID gives it back; an identifier
/// with reserved bits set comes back as `DecodeOverflow`.
pub proof fn lemma_ulid_decode_encode<ID: UlidId>(id: ID)
    ensures
        spec_encode_id(id).len() == <ID::Ty as BeBytes>::BASE32_SIZE,
        all_ascii(spec_encode_id(id)),
        id.spec_is_valid() ==> spec_decode_ulid::<ID>(spec_encode_id(id)) == Ok::<ID, Error<ID>>(id),
        !id.spec_is_valid() ==> spec_decode_ulid::<ID>(spec_encode_id(id)) == Err::<ID, Error<ID>>(
            Error::Base32Error(Base32Error::DecodeOverflow { id }),
        ),
{
    lemma_decode_encode_id(id);
    lemma_encode_chars(id.spec_raw().spec_value(), <ID::Ty as BeBytes>::BASE32_SIZE as nat);
}

/// Crockford Base32 encoding and decoding of ULIDs, as
/// fixed-length, lexicographically sortable strings.
pub trait Base32UlidExt: UlidId {
    /// A zeroed buffer for [`Base32UlidExt::encode_to_buf`].
    fn buf() -> (r: <Self::Ty as BeBytes>::Base32Array)
        ensures
            <Self::Ty as BeBytes>::base32_view(r) == Seq::new(
                <Self::Ty as BeBytes>::BASE32_SIZE as nat,
                |i: int| 0u8,
            ),
    {
        Self::inner_buf()
    }

    /// Encodes this identifier into a formatter that owns its buffer.
    fn encode(&self) -> (r: Base32UlidFormatter<Self>)
        ensures
            r@ == spec_encode_id(*self),
    {
        Base32UlidFormatter::new(self)
    }

    /// The encoding of this identifier as an owned string.
    fn to_string(&self) -> (r: String)
        ensures
            r@ == ascii_chars(spec_encode_id(*self)),
    {
        self.encode().to_string()
    }

    /// Encodes this identifier into `buf`, and returns a formatter that
    /// borrows it.
    fn encode_to_buf<'buf>(&self, buf: &'buf mut <Self::Ty as BeBytes>::Base32Array) -> (r:
        Base32UlidFormatterRef<'buf, Self>)
        ensures
            <Self::Ty as BeBytes>::base32_view(*final(buf)) == spec_encode_id(*self),
            r@ == spec_encode_id(*self),
    {
        Base32UlidFormatterRef::new(self, buf)
    }

    /// Decodes a Crockford Base32 string into an identifier.
    ///
    /// Fails on a string of the wrong length, on a byte outside the
    /// alphabet, and with `DecodeOverflow` when the decoded identifier sets
    /// reserved bits.
    fn decode(s: &str) -> (r: Result<Self, Error<Self>>)
        ensures
            r == spec_decode_ulid::<Self>(s.spec_bytes()),
    {
        let decoded = match Self::inner_decode(s) {
            Ok(d) => d,
            Err(e) => {
                return Err(Error::Base32Error(e));
            },
        };
        if !decoded.is_valid() {
            return Err(Error::Base32Error(Base32Error::DecodeOverflow { id: decoded }));
        }
        Ok(decoded)
    }
}

impl<ID: UlidId> Base32UlidExt for ID {

}

/// The Crockford Base32 encoding of a ULID, in a buffer of
/// its own.
pub struct Base32UlidFormatter<T: UlidId> {
    _id: PhantomData<T>,
    buf: <T::Ty as BeBytes>::Base32Array,
}

impl<T: UlidId> View for Base32UlidFormatter<T> {
    type V = Seq<u8>;

    closed spec fn view(&self) -> Seq<u8> {
        <T::Ty as BeBytes>::base32_view(self.buf)
    }
}

impl<T: UlidId> Base32UlidFormatter<T> {
    #[verifier::type_invariant]
    spec fn inv(self) -> bool {
        all_ascii(<T::Ty as BeBytes>::base32_view(self.buf))
    }

    /// Encodes `id`.
    pub fn new(id: &T) -> (r: Self)
        ensures
            r@ == spec_encode_id(*id),
    {
        let mut buf = T::inner_buf();
        id.inner_encode_to_buf(&mut buf);
        proof {
            lemma_encode_chars(id.spec_raw().spec_value(), <T::Ty as BeBytes>::BASE32_SIZE as nat);
        }
        Base32UlidFormatter { _id: PhantomData, buf }
    }

    /// The encoding as a string slice.
    pub fn as_str(&self) -> (r: &str)
        ensures
            r.spec_bytes() == self@,
            r@ == ascii_chars(self@),
    {
        proof {
            use_type_invariant(self);
        }
        ascii_str(<T::Ty as BeBytes>::base32_slice(&self.buf))
    }

    /// The encoding as an owned string.
    pub fn to_string(&self) -> (r: String)
        ensures
            r@ == ascii_chars(self@),
    {
        self.as_str().to_owned()
    }

    /// The buffer holding the encoding.
    pub fn into_inner(self) -> (r: <T::Ty as BeBytes>::Base32Array)
        ensures
            <T::Ty as BeBytes>::base32_view(r) == self@,
    {
        self.buf
    }
}

/// The Crockford Base32 encoding of a ULID, in a buffer
/// borrowed from the caller.
pub struct Base32UlidFormatterRef<'a, T: UlidId> {
    _id: PhantomData<T>,
    buf: &'a <T::Ty as BeBytes>::Base32Array,
}

impl<'a, T: UlidId> View for Base32UlidFormatterRef<'a, T> {
    type V = Seq<u8>;

    closed spec fn view(&self) -> Seq<u8> {
        <T::Ty as BeBytes>::base32_view(*self.buf)
    }
}

impl<'a, T: UlidId> Base32UlidFormatterRef<'a, T> {
    #[verifier::type_invariant]
    spec fn inv(self) -> bool {
        all_ascii(<T::Ty as BeBytes>::base32_view(*self.buf))
    }

    /// Encodes `id` into `buf`.
    pub fn new(id: &T, buf: &'a mut <T::Ty as BeBytes>::Base32Array) -> (r: Self)
        ensures
            <T::Ty as BeBytes>::base32_view(*final(buf)) == spec_encode_id(*id),
            r@ == spec_encode_id(*id),
    {
        id.inner_encode_to_buf(buf);
        proof {
            lemma_encode_chars(id.spec_raw().spec_value(), <T::Ty as BeBytes>::BASE32_SIZE as nat);
        }
        Base32UlidFormatterRef { _id: PhantomData, buf }
    }

    /// The encoding as a string slice.
    pub fn as_str(&self) -> (r: &str)
        ensures
            r.spec_bytes() == self@,
            r@ == ascii_chars(self@),
    {
        proof {
            use_type_invariant(self);
        }
        ascii_str(<T::Ty as BeBytes>::base32_slice(self.buf))
    }

    /// The encoding as an owned string.
    pub fn to_string(&self) -> (r: String)
        ensures
            r@ == ascii_chars(self@),
    {
        self.as_str().to_owned()
    }
}

impl<'a> TryFrom<&'a str> for ULID {
    type Error = Error<ULID>;

    fn try_from(s: &'a str) -> Result<Self, Self::Error> {
        Self::decode(s)
    }
}

impl<'a> vstd::std_specs::convert::TryFromSpecImpl<&'a str> for ULID {
    open spec fn obeys_try_from_spec() -> bool {
        true
    }

    open spec fn try_from_spec(v: &'a str) -> Result<Self, Error<ULID>> {
        spec_decode_ulid::<ULID>(v.spec_bytes())
    }
}

impl core::str::FromStr for ULID {
    type Err = Error<ULID>;

    fn from_str(s: &str) -> (r: Result<Self, Self::Err>)
        ensures
            r == spec_decode_ulid::<ULID>(s.spec_bytes()),
    {
        Self::decode(s)
    }
}

} // verus!

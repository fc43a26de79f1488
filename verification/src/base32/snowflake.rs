use core::marker::PhantomData;
use vstd::prelude::*;
use vstd::string::StringSliceAdditionalSpecFns;

use super::be_bytes::BeBytes;
use super::error::Base32Error;
use super::interface::{
    ascii_chars, ascii_str, lemma_decode_encode_id, lemma_encode_chars, spec_decode_id, spec_encode_id, Base32Ext,
};
use crate::id::{
    Id, SnowflakeDiscordId, SnowflakeId, SnowflakeInstagramId, SnowflakeLongId, SnowflakeMastodonId,
    SnowflakeTwitterId,
};

verus! {

/// What decoding a string into a Snowflake identifier gives: the structural
/// decode, then `DecodeOverflow` for an identifier whose reserved bits are
/// set.
pub open spec fn spec_decode_snow<ID: SnowflakeId>(s: Seq<u8>) -> Result<ID, Base32Error<ID>> {
    match spec_decode_id::<ID>(s) {
        Ok(id) => if id.spec_is_valid() {
            Ok(id)
        } else {
            Err(Base32Error::DecodeOverflow { id })
        },
        Err(e) => Err(e),
    }
}

/// A byte sequence of ASCII characters.
pub open spec fn all_ascii(s: Seq<u8>) -> bool {
    forall|i: int| 0 <= i < s.len() ==> s[i] < 128
}

/// Decoding the encoding of a valid Snowflake identifier gives it back; an identifier
/// with reserved bits set comes back as `DecodeOverflow`.
pub proof fn lemma_snow_decode_encode<ID: SnowflakeId>(id: ID)
    ensures
        spec_encode_id(id).len() == <ID::Ty as BeBytes>::BASE32_SIZE,
        all_ascii(spec_encode_id(id)),
        id.spec_is_valid() ==> spec_decode_snow::<ID>(spec_encode_id(id)) == Ok::<ID, Base32Error<ID>>(id),
        !id.spec_is_valid() ==> spec_decode_snow::<ID>(spec_encode_id(id)) == Err::<ID, Base32Error<ID>>(
            Base32Error::DecodeOverflow { id },
        ),
{
    lemma_decode_encode_id(id);
    lemma_encode_chars(id.spec_raw().spec_value(), <ID::Ty as BeBytes>::BASE32_SIZE as nat);
}

/// Crockford Base32 encoding and decoding of Snowflake identifiers, as
/// fixed-length, lexicographically sortable strings.
pub trait Base32SnowExt: SnowflakeId {
    /// A zeroed buffer for [`Base32SnowExt::encode_to_buf`].
    fn buf() -> (r: <Self::Ty as BeBytes>::Base32Array)
        ensures
            <Self::Ty as BeBytes>::base32_view(r) == Seq::new(
                <Self::Ty as BeBytes>::BASE32_SIZE as nat,
                |i: int| 0u8,
            ),
    {
        Self::inner_buf()
    }

    /// Encodes this identifier into a formatter that owns its buffer.
    fn encode(&self) -> (r: Base32SnowFormatter<Self>)
        ensures
            r@ == spec_encode_id(*self),
    {
        Base32SnowFormatter::new(self)
    }

    /// The encoding of this identifier as an owned string.
    fn to_string(&self) -> (r: String)
        ensures
            r@ == ascii_chars(spec_encode_id(*self)),
    {
        self.encode().to_string()
    }

    /// Encodes this identifier into `buf`, and returns a formatter that
    /// borrows it.
    fn encode_to_buf<'buf>(&self, buf: &'buf mut <Self::Ty as BeBytes>::Base32Array) -> (r:
        Base32SnowFormatterRef<'buf, Self>)
        ensures
            <Self::Ty as BeBytes>::base32_view(*final(buf)) == spec_encode_id(*self),
            r@ == spec_encode_id(*self),
    {
        Base32SnowFormatterRef::new(self, buf)
    }

    /// Decodes a Crockford Base32 string into an identifier.
    ///
    /// Fails on a string of the wrong length, on a byte outside the
    /// alphabet, and with `DecodeOverflow` when the decoded identifier sets
    /// reserved bits.
    fn decode(s: &str) -> (r: Result<Self, Base32Error<Self>>)
        ensures
            r == spec_decode_snow::<Self>(s.spec_bytes()),
    {
        let decoded = match Self::inner_decode(s) {
            Ok(d) => d,
            Err(e) => {
                return Err(e);
            },
        };
        if !decoded.is_valid() {
            return Err(Base32Error::DecodeOverflow { id: decoded });
        }
        Ok(decoded)
    }
}

impl<ID: SnowflakeId> Base32SnowExt for ID {

}

/// The Crockford Base32 encoding of a Snowflake identifier, in a buffer of
/// its own.
pub struct Base32SnowFormatter<T: SnowflakeId> {
    _id: PhantomData<T>,
    buf: <T::Ty as BeBytes>::Base32Array,
}

impl<T: SnowflakeId> View for Base32SnowFormatter<T> {
    type V = Seq<u8>;

    closed spec fn view(&self) -> Seq<u8> {
        <T::Ty as BeBytes>::base32_view(self.buf)
    }
}

impl<T: SnowflakeId> Base32SnowFormatter<T> {
    #[verifier::type_invariant]
    spec fn inv(self) -> bool {
        all_ascii(<T::Ty as BeBytes>::base32_view(self.buf))
    }

    /// Encodes `id`.
    pub fn new(id: &T) -> (r: Self)
        ensures
            r@ == spec_encode_id(*id),
    {
        let mut buf = T::inner_buf();
        id.inner_encode_to_buf(&mut buf);
        proof {
            lemma_encode_chars(id.spec_raw().spec_value(), <T::Ty as BeBytes>::BASE32_SIZE as nat);
        }
        Base32SnowFormatter { _id: PhantomData, buf }
    }

    /// The encoding as a string slice.
    pub fn as_str(&self) -> (r: &str)
        ensures
            r.spec_bytes() == self@,
            r@ == ascii_chars(self@),
    {
        proof {
            use_type_invariant(self);
        }
        ascii_str(<T::Ty as BeBytes>::base32_slice(&self.buf))
    }

    /// The encoding as an owned string.
    pub fn to_string(&self) -> (r: String)
        ensures
            r@ == ascii_chars(self@),
    {
        self.as_str().to_owned()
    }

    /// The buffer holding the encoding.
    pub fn into_inner(self) -> (r: <T::Ty as BeBytes>::Base32Array)
        ensures
            <T::Ty as BeBytes>::base32_view(r) == self@,
    {
        self.buf
    }
}

/// The Crockford Base32 encoding of a Snowflake identifier, in a buffer
/// borrowed from the caller.
pub struct Base32SnowFormatterRef<'a, T: SnowflakeId> {
    _id: PhantomData<T>,
    buf: &'a <T::Ty as BeBytes>::Base32Array,
}

impl<'a, T: SnowflakeId> View for Base32SnowFormatterRef<'a, T> {
    type V = Seq<u8>;

    closed spec fn view(&self) -> Seq<u8> {
        <T::Ty as BeBytes>::base32_view(*self.buf)
    }
}

impl<'a, T: SnowflakeId> Base32SnowFormatterRef<'a, T> {
    #[verifier::type_invariant]
    spec fn inv(self) -> bool {
        all_ascii(<T::Ty as BeBytes>::base32_view(*self.buf))
    }

    /// Encodes `id` into `buf`.
    pub fn new(id: &T, buf: &'a mut <T::Ty as BeBytes>::Base32Array) -> (r: Self)
        ensures
            <T::Ty as BeBytes>::base32_view(*final(buf)) == spec_encode_id(*id),
            r@ == spec_encode_id(*id),
    {
        id.inner_encode_to_buf(buf);
        proof {
            lemma_encode_chars(id.spec_raw().spec_value(), <T::Ty as BeBytes>::BASE32_SIZE as nat);
        }
        Base32SnowFormatterRef { _id: PhantomData, buf }
    }

    /// The encoding as a string slice.
    pub fn as_str(&self) -> (r: &str)
        ensures
            r.spec_bytes() == self@,
            r@ == ascii_chars(self@),
    {
        proof {
            use_type_invariant(self);
        }
        ascii_str(<T::Ty as BeBytes>::base32_slice(self.buf))
    }

    /// The encoding as an owned string.
    pub fn to_string(&self) -> (r: String)
        ensures
            r@ == ascii_chars(self@),
    {
        self.as_str().to_owned()
    }
}

impl<'a> TryFrom<&'a str> for SnowflakeTwitterId {
    type Error = Base32Error<SnowflakeTwitterId>;

    fn try_from(s: &'a str) -> Result<Self, Self::Error> {
        Self::decode(s)
    }
}

impl<'a> vstd::std_specs::convert::TryFromSpecImpl<&'a str> for SnowflakeTwitterId {
    open spec fn obeys_try_from_spec() -> bool {
        true
    }

    open spec fn try_from_spec(v: &'a str) -> Result<Self, Base32Error<SnowflakeTwitterId>> {
        spec_decode_snow::<SnowflakeTwitterId>(v.spec_bytes())
    }
}

impl core::str::FromStr for SnowflakeTwitterId {
    type Err = Base32Error<SnowflakeTwitterId>;

    fn from_str(s: &str) -> (r: Result<Self, Self::Err>)
        ensures
            r == spec_decode_snow::<SnowflakeTwitterId>(s.spec_bytes()),
    {
        Self::decode(s)
    }
}

impl<'a> TryFrom<&'a str> for SnowflakeDiscordId {
    type Error = Base32Error<SnowflakeDiscordId>;

    fn try_from(s: &'a str) -> Result<Self, Self::Error> {
        Self::decode(s)
    }
}

impl<'a> vstd::std_specs::convert::TryFromSpecImpl<&'a str> for SnowflakeDiscordId {
    open spec fn obeys_try_from_spec() -> bool {
        true
    }

    open spec fn try_from_spec(v: &'a str) -> Result<Self, Base32Error<SnowflakeDiscordId>> {
        spec_decode_snow::<SnowflakeDiscordId>(v.spec_bytes())
    }
}

impl core::str::FromStr for SnowflakeDiscordId {
    type Err = Base32Error<SnowflakeDiscordId>;

    fn from_str(s: &str) -> (r: Result<Self, Self::Err>)
        ensures
            r == spec_decode_snow::<SnowflakeDiscordId>(s.spec_bytes()),
    {
        Self::decode(s)
    }
}

impl<'a> TryFrom<&'a str> for SnowflakeMastodonId {
    type Error = Base32Error<SnowflakeMastodonId>;

    fn try_from(s: &'a str) -> Result<Self, Self::Error> {
        Self::decode(s)
    }
}

impl<'a> vstd::std_specs::convert::TryFromSpecImpl<&'a str> for SnowflakeMastodonId {
    open spec fn obeys_try_from_spec() -> bool {
        true
    }

    open spec fn try_from_spec(v: &'a str) -> Result<Self, Base32Error<SnowflakeMastodonId>> {
        spec_decode_snow::<SnowflakeMastodonId>(v.spec_bytes())
    }
}

impl core::str::FromStr for SnowflakeMastodonId {
    type Err = Base32Error<SnowflakeMastodonId>;

    fn from_str(s: &str) -> (r: Result<Self, Self::Err>)
        ensures
            r == spec_decode_snow::<SnowflakeMastodonId>(s.spec_bytes()),
    {
        Self::decode(s)
    }
}

impl<'a> TryFrom<&'a str> for SnowflakeInstagramId {
    type Error = Base32Error<SnowflakeInstagramId>;

    fn try_from(s: &'a str) -> Result<Self, Self::Error> {
        Self::decode(s)
    }
}

impl<'a> vstd::std_specs::convert::TryFromSpecImpl<&'a str> for SnowflakeInstagramId {
    open spec fn obeys_try_from_spec() -> bool {
        true
    }

    open spec fn try_from_spec(v: &'a str) -> Result<Self, Base32Error<SnowflakeInstagramId>> {
        spec_decode_snow::<SnowflakeInstagramId>(v.spec_bytes())
    }
}

impl core::str::FromStr for SnowflakeInstagramId {
    type Err = Base32Error<SnowflakeInstagramId>;

    fn from_str(s: &str) -> (r: Result<Self, Self::Err>)
        ensures
            r == spec_decode_snow::<SnowflakeInstagramId>(s.spec_bytes()),
    {
        Self::decode(s)
    }
}

impl<'a> TryFrom<&'a str> for SnowflakeLongId {
    type Error = Base32Error<SnowflakeLongId>;

    fn try_from(s: &'a str) -> Result<Self, Self::Error> {
        Self::decode(s)
    }
}

impl<'a> vstd::std_specs::convert::TryFromSpecImpl<&'a str> for SnowflakeLongId {
    open spec fn obeys_try_from_spec() -> bool {
        true
    }

    open spec fn try_from_spec(v: &'a str) -> Result<Self, Base32Error<SnowflakeLongId>> {
        spec_decode_snow::<SnowflakeLongId>(v.spec_bytes())
    }
}

impl core::str::FromStr for SnowflakeLongId {
    type Err = Base32Error<SnowflakeLongId>;

    fn from_str(s: &str) -> (r: Result<Self, Self::Err>)
        ensures
            r == spec_decode_snow::<SnowflakeLongId>(s.spec_bytes()),
    {
        Self::decode(s)
    }
}

} // verus!

mod be_bytes;
mod crockford;
mod error;
mod interface;
mod snowflake;
mod ulid;

pub use be_bytes::{lemma_be_bytes_roundtrip, lemma_u128_sizes, lemma_u64_sizes, BeBytes};
pub use crockford::{
    base32_len, be_value, char_digit, decode_base32, decode_chars, digit_char, encode_base32,
    encode_value, upper_char_digit,
};
pub use error::Base32Error;
pub use interface::{
    ascii_chars, id_with_value, lemma_char_digit_case, lemma_decode_encode_id, lemma_decode_encode_int,
    lemma_decode_encode_value, lemma_decode_same_digits, lemma_digit_roundtrip, lemma_encode_chars,
    lemma_encode_id_order, lemma_encode_order, lemma_id_with_value, lex_lt, spec_decode_id,
    spec_encode_id, Base32Ext,
};
pub use snowflake::{
    all_ascii, lemma_snow_decode_encode, spec_decode_snow, Base32SnowExt, Base32SnowFormatter, Base32SnowFormatterRef,
};
pub use ulid::{lemma_ulid_decode_encode, spec_decode_ulid, Base32UlidExt, Base32UlidFormatter, Base32UlidFormatterRef};

use ferroid::{decode_base32, encode_base32, Base32Error};

fn roundtrip_u32(val: u32) {
    let bytes = val.to_be_bytes();
    let mut buf = [0u8; 7];
    encode_base32(&bytes, &mut buf);
    let s = core::str::from_utf8(&buf).unwrap();
    let decoded = decode_base32::<u32, ()>(s).unwrap();
    assert_eq!(val, decoded, "roundtrip for u32: input={val}, b32={s}");
}

fn roundtrip_u64(val: u64) {
    let bytes = val.to_be_bytes();
    let mut buf = [0u8; 13];
    encode_base32(&bytes, &mut buf);
    let s = core::str::from_utf8(&buf).unwrap();
    let decoded = decode_base32::<u64, ()>(s).unwrap();
    assert_eq!(val, decoded, "roundtrip for u64: input={val}, b32={s}");
}

fn roundtrip_u128(val: u128) {
    let bytes = val.to_be_bytes();
    let mut buf = [0u8; 26];
    encode_base32(&bytes, &mut buf);
    let s = core::str::from_utf8(&buf).unwrap();
    let decoded = decode_base32::<u128, ()>(s).unwrap();
    assert_eq!(val, decoded, "roundtrip for u128: input={val}, b32={s}");
}

#[test]
fn encode_decode_preserves_u32_values() {
    for &v in &[0, 1, u32::MAX, u32::MIN, 42, 0xFF00_FF00, 0x1234_5678] {
        roundtrip_u32(v);
    }
}

#[test]
fn encode_decode_preserves_u64_values() {
    for &v in &[
        0,
        1,
        u64::MAX,
        u64::MIN,
        42,
        0xFF00_FF00_FF00_FF00,
        0x1234_5678_90AB_CDEF,
    ] {
        roundtrip_u64(v);
    }
}

#[test]
fn encode_decode_preserves_u128_values() {
    for &v in &[
        0,
        1,
        u128::MAX,
        u128::MIN,
        42,
        0xFFFF_0000_FFFF_0000_FFFF_0000_FFFF_0000,
        0x0123_4567_89AB_CDEF_0123_4567_89AB_CDEF,
    ] {
        roundtrip_u128(v);
    }
}

#[test]
fn decode_accepts_lowercase_characters() {
    let encoded_upper = "ABCD123";
    let encoded_lower = "abcd123";

    let val_upper = decode_base32::<u32, ()>(encoded_upper).unwrap();
    let val_lower = decode_base32::<u32, ()>(encoded_lower).unwrap();

    assert_eq!(val_upper, val_lower);
}

#[test]
fn decode_accepts_mixed_case_characters() {
    let encoded_upper = "ABCD123";
    let encoded_mixed = "aBcD123";

    let val_upper = decode_base32::<u32, ()>(encoded_upper).unwrap();
    let val_mixed = decode_base32::<u32, ()>(encoded_mixed).unwrap();

    assert_eq!(val_upper, val_mixed);
}

#[test]
fn decode_treats_crockford_aliases_as_canonical_values() {
    let aliases = [
        (b'O', b'0'),
        (b'o', b'0'),
        (b'I', b'1'),
        (b'i', b'1'),
        (b'L', b'1'),
        (b'l', b'1'),
    ];

    for (alias, canonical) in aliases {
        let alias_buf = [alias; 7];
        let canonical_buf = [canonical; 7];

        let alias_str = core::str::from_utf8(&alias_buf).unwrap();
        let canonical_str = core::str::from_utf8(&canonical_buf).unwrap();

        let alias_val = decode_base32::<u32, ()>(alias_str).unwrap();
        let canonical_val = decode_base32::<u32, ()>(canonical_str).unwrap();

        assert_eq!(
            alias_val, canonical_val,
            "alias {} should decode to same value as {}",
            alias as char, canonical as char
        );
    }
}

#[test]
fn decode_returns_error_for_invalid_character() {
    let invalid_input = "ZZZZZZ!";

    let result = decode_base32::<u32, ()>(invalid_input);

    assert_eq!(
        result.unwrap_err(),
        Base32Error::DecodeInvalidAscii {
            byte: b'!',
            index: 6,
        }
    );
}

#[test]
fn encode_pads_the_top_digit_with_zero_bits() {
    let mut buf = [0u8; 7];
    encode_base32(&u32::MAX.to_be_bytes(), &mut buf);
    assert_eq!(&buf, b"3ZZZZZZ");

    let mut buf = [0u8; 7];
    encode_base32(&1u32.to_be_bytes(), &mut buf);
    assert_eq!(&buf, b"0000001");
}

#[test]
fn decode_shifts_out_bits_beyond_the_width() {
    // Thirteen characters carry 65 bits; the top one does not fit in a u64.
    assert_eq!(decode_base32::<u64, ()>("ZZZZZZZZZZZZZ").unwrap(), u64::MAX);
    assert_eq!(decode_base32::<u64, ()>("G000000000000").unwrap(), 0);
    // Twenty-six characters carry 130 bits; the top two do not fit in a u128.
    assert_eq!(
        decode_base32::<u128, ()>("ZZZZZZZZZZZZZZZZZZZZZZZZZZ").unwrap(),
        u128::MAX
    );
}

#[test]
fn decode_reports_the_first_invalid_byte() {
    assert_eq!(
        decode_base32::<u64, ()>("U!#").unwrap_err(),
        Base32Error::DecodeInvalidAscii { byte: b'U', index: 0 }
    );
    assert_eq!(decode_base32::<u32, ()>("").unwrap(), 0);
}

use core::str::FromStr;

use ferroid::{
    Base32Error, Base32SnowExt, Base32UlidExt, Error, Id, SnowflakeDiscordId, SnowflakeId,
    SnowflakeInstagramId, SnowflakeLongId, SnowflakeMastodonId, SnowflakeTwitterId, UlidId, ULID,
};

#[test]
fn snow_try_from() {
    let id = SnowflakeTwitterId::try_from("01ARZ3NDEKTSV").unwrap();
    let encoded = id.encode();
    assert_eq!(encoded.as_str(), "01ARZ3NDEKTSV");
}

#[test]
fn snow_from_str() {
    let id = SnowflakeTwitterId::from_str("01ARZ3NDEKTSV").unwrap();
    let encoded = id.encode();
    assert_eq!(encoded.as_str(), "01ARZ3NDEKTSV");
}

#[test]
fn snowflake_twitter_max() {
    let id = SnowflakeTwitterId::from_components(
        SnowflakeTwitterId::max_timestamp(),
        SnowflakeTwitterId::max_machine_id(),
        SnowflakeTwitterId::max_sequence(),
    );
    assert_eq!(id.timestamp(), SnowflakeTwitterId::max_timestamp());
    assert_eq!(id.machine_id(), SnowflakeTwitterId::max_machine_id());
    assert_eq!(id.sequence(), SnowflakeTwitterId::max_sequence());

    let encoded = id.encode();
    assert_eq!(encoded.as_str(), "7ZZZZZZZZZZZZ");
    let decoded = SnowflakeTwitterId::decode(encoded.as_str()).unwrap();

    assert_eq!(decoded.timestamp(), SnowflakeTwitterId::max_timestamp());
    assert_eq!(decoded.machine_id(), SnowflakeTwitterId::max_machine_id());
    assert_eq!(decoded.sequence(), SnowflakeTwitterId::max_sequence());
    assert_eq!(id, decoded);
}

#[test]
fn snowflake_twitter_zero() {
    let id = SnowflakeTwitterId::from_components(0, 0, 0);
    assert_eq!(id.timestamp(), 0);
    assert_eq!(id.machine_id(), 0);
    assert_eq!(id.sequence(), 0);

    let encoded = id.encode();
    assert_eq!(encoded.as_str(), "0000000000000");
    let decoded = SnowflakeTwitterId::decode(encoded.as_str()).unwrap();

    assert_eq!(decoded.timestamp(), 0);
    assert_eq!(decoded.machine_id(), 0);
    assert_eq!(decoded.sequence(), 0);
    assert_eq!(id, decoded);
}

#[test]
fn snowflake_discord_max() {
    let id = SnowflakeDiscordId::from_components(
        SnowflakeDiscordId::max_timestamp(),
        SnowflakeDiscordId::max_machine_id(),
        SnowflakeDiscordId::max_sequence(),
    );
    assert_eq!(id.timestamp(), SnowflakeDiscordId::max_timestamp());
    assert_eq!(id.machine_id(), SnowflakeDiscordId::max_machine_id());
    assert_eq!(id.sequence(), SnowflakeDiscordId::max_sequence());

    let encoded = id.encode();
    assert_eq!(encoded.as_str(), "FZZZZZZZZZZZZ");
    let decoded = SnowflakeDiscordId::decode(encoded.as_str()).unwrap();

    assert_eq!(decoded.timestamp(), SnowflakeDiscordId::max_timestamp());
    assert_eq!(decoded.machine_id(), SnowflakeDiscordId::max_machine_id());
    assert_eq!(decoded.sequence(), SnowflakeDiscordId::max_sequence());
    assert_eq!(id, decoded);
}

#[test]
fn snowflake_discord_zero() {
    let id = SnowflakeDiscordId::from_components(0, 0, 0);
    assert_eq!(id.timestamp(), 0);
    assert_eq!(id.machine_id(), 0);
    assert_eq!(id.sequence(), 0);

    let encoded = id.encode();
    assert_eq!(encoded.as_str(), "0000000000000");
    let decoded = SnowflakeDiscordId::decode(encoded.as_str()).unwrap();

    assert_eq!(decoded.timestamp(), 0);
    assert_eq!(decoded.machine_id(), 0);
    assert_eq!(decoded.sequence(), 0);
    assert_eq!(id, decoded);
}

#[test]
fn snowflake_instagram_max() {
    let id = SnowflakeInstagramId::from_components(
        SnowflakeInstagramId::max_timestamp(),
        SnowflakeInstagramId::max_machine_id(),
        SnowflakeInstagramId::max_sequence(),
    );
    assert_eq!(id.timestamp(), SnowflakeInstagramId::max_timestamp());
    assert_eq!(id.machine_id(), SnowflakeInstagramId::max_machine_id());
    assert_eq!(id.sequence(), SnowflakeInstagramId::max_sequence());

    let encoded = id.encode();
    assert_eq!(encoded.as_str(), "FZZZZZZZZZZZZ");
    let decoded = SnowflakeInstagramId::decode(encoded.as_str()).unwrap();

    assert_eq!(decoded.timestamp(), SnowflakeInstagramId::max_timestamp());
    assert_eq!(decoded.machine_id(), SnowflakeInstagramId::max_machine_id());
    assert_eq!(decoded.sequence(), SnowflakeInstagramId::max_sequence());
    assert_eq!(id, decoded);
}

#[test]
fn snowflake_instagram_zero() {
    let id = SnowflakeInstagramId::from_components(0, 0, 0);
    assert_eq!(id.timestamp(), 0);
    assert_eq!(id.machine_id(), 0);
    assert_eq!(id.sequence(), 0);

    let encoded = id.encode();
    assert_eq!(encoded.as_str(), "0000000000000");
    let decoded = SnowflakeInstagramId::decode(encoded.as_str()).unwrap();

    assert_eq!(decoded.timestamp(), 0);
    assert_eq!(decoded.machine_id(), 0);
    assert_eq!(decoded.sequence(), 0);
    assert_eq!(id, decoded);
}

#[test]
fn snowflake_mastodon_max() {
    let id = SnowflakeMastodonId::from_components(
        SnowflakeMastodonId::max_timestamp(),
        SnowflakeMastodonId::max_machine_id(),
        SnowflakeMastodonId::max_sequence(),
    );
    assert_eq!(id.timestamp(), SnowflakeMastodonId::max_timestamp());
    assert_eq!(id.machine_id(), SnowflakeMastodonId::max_machine_id());
    assert_eq!(id.sequence(), SnowflakeMastodonId::max_sequence());

    let encoded = id.encode();
    assert_eq!(encoded.as_str(), "FZZZZZZZZZZZZ");
    let decoded = SnowflakeMastodonId::decode(encoded.as_str()).unwrap();

    assert_eq!(decoded.timestamp(), SnowflakeMastodonId::max_timestamp());
    assert_eq!(decoded.machine_id(), SnowflakeMastodonId::max_machine_id());
    assert_eq!(decoded.sequence(), SnowflakeMastodonId::max_sequence());
    assert_eq!(id, decoded);
}

#[test]
fn snowflake_mastodon_zero() {
    let id = SnowflakeMastodonId::from_components(0, 0, 0);
    assert_eq!(id.timestamp(), 0);
    assert_eq!(id.machine_id(), 0);
    assert_eq!(id.sequence(), 0);

    let encoded = id.encode();
    assert_eq!(encoded.as_str(), "0000000000000");
    let decoded = SnowflakeMastodonId::decode(encoded.as_str()).unwrap();

    assert_eq!(decoded.timestamp(), 0);
    assert_eq!(decoded.machine_id(), 0);
    assert_eq!(decoded.sequence(), 0);
    assert_eq!(id, decoded);
}

#[test]
fn snowflake_decode_invalid_character_fails() {
    let invalid = "000000@000000";
    let res = SnowflakeTwitterId::decode(invalid);
    assert_eq!(
        res.unwrap_err(),
        Base32Error::DecodeInvalidAscii {
            byte: b'@',
            index: 6,
        }
    );
}

#[test]
fn snowflake_decode_invalid_length_fails() {
    let too_short = "012345678901";
    let res = SnowflakeTwitterId::decode(too_short);
    assert_eq!(res.unwrap_err(), Base32Error::DecodeInvalidLen { len: 12 });

    let too_long = "01234567890123";
    let res = SnowflakeTwitterId::decode(too_long);

    assert_eq!(res.unwrap_err(), Base32Error::DecodeInvalidLen { len: 14 });
}

#[test]
fn base32_decode_invalid_character_fails() {
    let invalid = "012345678901@";
    let result = SnowflakeTwitterId::decode(invalid);
    assert!(matches!(
        result,
        Err(Base32Error::DecodeInvalidAscii {
            byte: 64,
            index: 12
        })
    ));
}

#[test]
fn base32_decode_invalid_length_fails() {
    let too_short = "012345678901";
    let result = SnowflakeTwitterId::decode(too_short);
    assert!(matches!(
        result,
        Err(Base32Error::DecodeInvalidLen { len: 12 })
    ));

    let too_long = "01234567890123";
    let result = SnowflakeTwitterId::decode(too_long);
    assert!(matches!(
        result,
        Err(Base32Error::DecodeInvalidLen { len: 14 })
    ));
}

#[test]
fn snowflake_decode_rejects_reserved_bits() {
    // The top bit of a Twitter ID is reserved.
    let res = SnowflakeTwitterId::decode("8000000000000");
    let id = SnowflakeTwitterId::from_raw(1 << 63);
    assert_eq!(res.unwrap_err(), Base32Error::DecodeOverflow { id });
    // Discord IDs use all 64 bits; the 65th bit of the encoding is shifted out.
    let id = SnowflakeDiscordId::decode("G000000000001").unwrap();
    assert_eq!(id, SnowflakeDiscordId::from_raw(1));
}

#[test]
fn snowflake_decode_accepts_lowercase_and_aliases() {
    let upper = SnowflakeTwitterId::decode("01ARZ3NDEKTSV").unwrap();
    let lower = SnowflakeTwitterId::decode("01arz3ndektsv").unwrap();
    let aliased = SnowflakeTwitterId::decode("oIARZ3NDEKTSV").unwrap();
    assert_eq!(upper, lower);
    assert_eq!(upper, aliased);
}

#[test]
fn snowflake_long_roundtrip() {
    let id = SnowflakeLongId::from_components(
        SnowflakeLongId::max_timestamp(),
        SnowflakeLongId::max_machine_id(),
        SnowflakeLongId::max_sequence(),
    );
    let encoded = id.encode();
    assert_eq!(encoded.as_str().len(), 26);
    assert_eq!(SnowflakeLongId::decode(encoded.as_str()).unwrap(), id);
    assert_eq!(encoded.as_str(), "000000007ZZZZZZZZZZZZZZZZZ");
}

#[test]
fn snowflake_encode_to_buf_and_formatters() {
    let id = SnowflakeTwitterId::from_raw(2_424_242_424_242_424_242);
    let mut buf = SnowflakeTwitterId::buf();
    let formatter = id.encode_to_buf(&mut buf);
    assert_eq!(formatter.as_str(), "23953MG16DJDJ");
    assert_eq!(formatter.to_string(), "23953MG16DJDJ");
    assert_eq!(&buf, b"23953MG16DJDJ");
    let owned = id.encode();
    assert_eq!(owned.to_string(), String::from("23953MG16DJDJ"));
    assert_eq!(&owned.into_inner(), b"23953MG16DJDJ");
}

#[test]
fn ulid_try_from() {
    let ulid = ULID::try_from("01ARZ3NDEKTSV4RRFFQ69G5FAV").unwrap();
    let encoded = ulid.encode();
    assert_eq!(encoded.as_str(), "01ARZ3NDEKTSV4RRFFQ69G5FAV");
}

#[test]
fn ulid_from_str() {
    let ulid = ULID::from_str("01ARZ3NDEKTSV4RRFFQ69G5FAV").unwrap();
    let encoded = ulid.encode();
    assert_eq!(encoded.as_str(), "01ARZ3NDEKTSV4RRFFQ69G5FAV");
}

#[test]
fn ulid_ulid_max() {
    let id = ULID::from_components(ULID::max_timestamp(), ULID::max_random());
    assert_eq!(id.timestamp(), ULID::max_timestamp());
    assert_eq!(id.random(), ULID::max_random());

    let encoded = id.encode();
    assert_eq!(encoded.as_str(), "7ZZZZZZZZZZZZZZZZZZZZZZZZZ");
    let decoded = ULID::decode(encoded.as_str()).unwrap();

    assert_eq!(decoded.timestamp(), ULID::max_timestamp());
    assert_eq!(decoded.random(), ULID::max_random());
    assert_eq!(id, decoded);
}

#[test]
fn ulid_known() {
    let id = ULID::from_components(1_469_922_850_259, 1_012_768_647_078_601_740_696_923);
    assert_eq!(id.timestamp(), 1_469_922_850_259);
    assert_eq!(id.random(), 1_012_768_647_078_601_740_696_923);

    let encoded = id.encode();
    assert_eq!(encoded.as_str(), "01ARZ3NDEKTSV4RRFFQ69G5FAV");
    let decoded = ULID::decode(encoded.as_str()).unwrap();

    assert_eq!(decoded.timestamp(), 1_469_922_850_259);
    assert_eq!(decoded.random(), 1_012_768_647_078_601_740_696_923);
    assert_eq!(id, decoded);

    let id = ULID::from_components(1_611_559_180_765, 885_339_478_614_498_720_052_741);
    assert_eq!(id.timestamp(), 1_611_559_180_765);
    assert_eq!(id.random(), 885_339_478_614_498_720_052_741);

    let encoded = id.encode();
    assert_eq!(encoded.as_str(), "01EWW6K6EXQDX5JV0E9CAHPXG5");
    let decoded = ULID::decode(encoded.as_str()).unwrap();

    assert_eq!(decoded.timestamp(), 1_611_559_180_765);
    assert_eq!(decoded.random(), 885_339_478_614_498_720_052_741);
    assert_eq!(id, decoded);
}

#[test]
fn ulid_ulid_zero() {
    let id = ULID::from_components(0, 0);
    assert_eq!(id.timestamp(), 0);
    assert_eq!(id.random(), 0);

    let encoded = id.encode();
    assert_eq!(encoded.as_str(), "00000000000000000000000000");
    let decoded = ULID::decode(encoded.as_str()).unwrap();

    assert_eq!(decoded.timestamp(), 0);
    assert_eq!(decoded.random(), 0);
    assert_eq!(id, decoded);
}

#[test]
fn ulid_decode_invalid_character_fails() {
    let invalid = "000000000000@0000000000000";
    let res = ULID::decode(invalid);
    assert_eq!(
        res.unwrap_err(),
        Error::Base32Error(Base32Error::DecodeInvalidAscii {
            byte: b'@',
            index: 12,
        })
    );
}

#[test]
fn ulid_decode_invalid_length_fails() {
    let too_short = "0123456789012345678901234";
    let res = ULID::decode(too_short);
    assert_eq!(
        res.unwrap_err(),
        Error::Base32Error(Base32Error::DecodeInvalidLen { len: 25 })
    );

    let too_long = "012345678901234567890123456";
    let res = ULID::decode(too_long);

    assert_eq!(
        res.unwrap_err(),
        Error::Base32Error(Base32Error::DecodeInvalidLen { len: 27 })
    );
}

#[test]
fn ulid_encode_to_buf_and_top_bits() {
    let id = ULID::from_raw(u128::MAX);
    let mut buf = ULID::buf();
    let formatter = id.encode_to_buf(&mut buf);
    assert_eq!(formatter.as_str(), "7ZZZZZZZZZZZZZZZZZZZZZZZZZ");
    // The two bits beyond 128 are shifted out when decoding.
    assert_eq!(ULID::decode("ZZZZZZZZZZZZZZZZZZZZZZZZZZ").unwrap(), id);
}

#[test]
fn encodings_sort_as_the_ids() {
    let raws: [u64; 6] = [0, 1, 31, 32, 1 << 40, (1 << 63) - 1];
    for pair in raws.windows(2) {
        let a = SnowflakeTwitterId::from_raw(pair[0]).encode();
        let b = SnowflakeTwitterId::from_raw(pair[1]).encode();
        assert!(a.as_str() < b.as_str(), "{} < {}", a.as_str(), b.as_str());
    }
    let u1 = ULID::from_components(5, ULID::max_random()).encode();
    let u2 = ULID::from_components(6, 0).encode();
    assert!(u1.as_str() < u2.as_str());
}

fn roundtrip_snowflake<T>(id: T)
where
    T: SnowflakeId + Base32SnowExt + PartialEq + core::fmt::Debug,
{
    let mut buf = T::buf();
    let formatter = id.encode_to_buf(&mut buf);
    let encoded = formatter.as_str().to_string();
    let decoded = T::decode(&encoded).expect("decode should succeed");
    assert_eq!(id, decoded, "roundtrip failed for {encoded}");
}

#[test]
fn base32_twitter_max() {
    let id = SnowflakeTwitterId::from_components(
        SnowflakeTwitterId::max_timestamp(),
        SnowflakeTwitterId::max_machine_id(),
        SnowflakeTwitterId::max_sequence(),
    );
    roundtrip_snowflake(id);
    assert_eq!(id.to_raw(), 9_223_372_036_854_775_807);
}

#[test]
fn base32_twitter_zero() {
    let id = SnowflakeTwitterId::from_components(0, 0, 0);
    roundtrip_snowflake(id);
    assert_eq!(id.to_raw(), 0);
}

#[test]
fn base32_discord_max() {
    let id = SnowflakeDiscordId::from_components(
        SnowflakeDiscordId::max_timestamp(),
        SnowflakeDiscordId::max_machine_id(),
        SnowflakeDiscordId::max_sequence(),
    );
    roundtrip_snowflake(id);
    assert_eq!(id.to_raw(), 18_446_744_073_709_551_615);
}

#[test]
fn base32_discord_zero() {
    let id = SnowflakeDiscordId::from_components(0, 0, 0);
    roundtrip_snowflake(id);
    assert_eq!(id.to_raw(), 0);
}

#[test]
fn base32_instagram_max() {
    let id = SnowflakeInstagramId::from_components(
        SnowflakeInstagramId::max_timestamp(),
        SnowflakeInstagramId::max_machine_id(),
        SnowflakeInstagramId::max_sequence(),
    );
    roundtrip_snowflake(id);
    assert_eq!(id.to_raw(), 18_446_744_073_709_551_615);
}

#[test]
fn base32_instagram_zero() {
    let id = SnowflakeInstagramId::from_components(0, 0, 0);
    roundtrip_snowflake(id);
    assert_eq!(id.to_raw(), 0);
}

#[test]
fn base32_mastodon_max() {
    let id = SnowflakeMastodonId::from_components(
        SnowflakeMastodonId::max_timestamp(),
        SnowflakeMastodonId::max_machine_id(),
        SnowflakeMastodonId::max_sequence(),
    );
    roundtrip_snowflake(id);
    assert_eq!(id.to_raw(), 18_446_744_073_709_551_615);
}

#[test]
fn base32_mastodon_zero() {
    let id = SnowflakeMastodonId::from_components(0, 0, 0);
    roundtrip_snowflake(id);
    assert_eq!(id.to_raw(), 0);
}

#[test]
fn base32_ulid_max() {
    let id = ULID::from_components(ULID::max_timestamp(), ULID::max_random());
    let mut buf = ULID::buf();
    let encoded = id.encode_to_buf(&mut buf).as_str().to_string();
    assert_eq!(ULID::decode(&encoded).unwrap(), id);
    assert_eq!(id.to_raw(), u128::MAX);
}

#[test]
fn base32_ulid_zero() {
    let id = ULID::from_components(0, 0);
    let mut buf = ULID::buf();
    let encoded = id.encode_to_buf(&mut buf).as_str().to_string();
    assert_eq!(ULID::decode(&encoded).unwrap(), id);
    assert_eq!(id.to_raw(), 0);
}

#[test]
fn twitter_display() {
    let id = SnowflakeTwitterId::decode("01ARZ3NDEKTSV").unwrap();
    assert_eq!(Base32SnowExt::to_string(&id), "01ARZ3NDEKTSV");
}

#[test]
fn instagram_display() {
    let id = SnowflakeInstagramId::decode("01ARZ3NDEKTSV").unwrap();
    assert_eq!(Base32SnowExt::to_string(&id), "01ARZ3NDEKTSV");
}

#[test]
fn mastodon_display() {
    let id = SnowflakeMastodonId::decode("01ARZ3NDEKTSV").unwrap();
    assert_eq!(Base32SnowExt::to_string(&id), "01ARZ3NDEKTSV");
}

#[test]
fn discord_display() {
    let id = SnowflakeDiscordId::decode("01ARZ3NDEKTSV").unwrap();
    assert_eq!(Base32SnowExt::to_string(&id), "01ARZ3NDEKTSV");
}

#[test]
fn ulid_display() {
    let ulid = ULID::decode("01ARZ3NDEKTSV4RRFFQ69G5FAV").unwrap();
    assert_eq!(Base32UlidExt::to_string(&ulid), "01ARZ3NDEKTSV4RRFFQ69G5FAV");
}

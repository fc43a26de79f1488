use ferroid::{
    Id, RandSource, SnowflakeDiscordId, SnowflakeId, SnowflakeInstagramId, SnowflakeLongId,
    SnowflakeMastodonId, SnowflakeTwitterId, UlidId, ULID,
};

#[test]
fn test_snowflake_twitter_id_fields_and_bounds() {
    let ts = SnowflakeTwitterId::max_timestamp();
    let mid = SnowflakeTwitterId::max_machine_id();
    let seq = SnowflakeTwitterId::max_sequence();

    let id = SnowflakeTwitterId::from(ts, mid, seq);
    println!("ID: {:#?}", id);
    assert_eq!(id.timestamp(), ts);
    assert_eq!(id.machine_id(), mid);
    assert_eq!(id.sequence(), seq);
    assert_eq!(SnowflakeTwitterId::from_components(ts, mid, seq), id);
}

#[test]
fn test_snowflake_discord_id_fields_and_bounds() {
    let ts = SnowflakeDiscordId::max_timestamp();
    let mid = SnowflakeDiscordId::max_machine_id();
    let seq = SnowflakeDiscordId::max_sequence();

    let id = SnowflakeDiscordId::from(ts, mid, seq);
    println!("ID: {:#?}", id);
    assert_eq!(id.timestamp(), ts);
    assert_eq!(id.machine_id(), mid);
    assert_eq!(id.sequence(), seq);
    assert_eq!(SnowflakeDiscordId::from_components(ts, mid, seq), id);
}

#[test]
fn test_snowflake_mastodon_id_fields_and_bounds() {
    let ts = SnowflakeMastodonId::max_timestamp();
    let mid = SnowflakeMastodonId::max_machine_id();
    let seq = SnowflakeMastodonId::max_sequence();

    let id = SnowflakeMastodonId::from(ts, mid, seq);
    println!("ID: {:#?}", id);
    assert_eq!(id.timestamp(), ts);
    assert_eq!(id.machine_id(), 0); // machine_id is always zero
    assert_eq!(id.sequence(), seq);
    assert_eq!(SnowflakeMastodonId::from_components(ts, 0, seq), id);
}

#[test]
fn test_snowflake_instagram_id_fields_and_bounds() {
    let ts = SnowflakeInstagramId::max_timestamp();
    let mid = SnowflakeInstagramId::max_machine_id();
    let seq = SnowflakeInstagramId::max_sequence();

    let id = SnowflakeInstagramId::from(ts, mid, seq);
    println!("ID: {:#?}", id);
    assert_eq!(id.timestamp(), ts);
    assert_eq!(id.machine_id(), mid);
    assert_eq!(id.sequence(), seq);
    assert_eq!(SnowflakeInstagramId::from_components(ts, mid, seq), id);
}

#[test]
fn test_snowflake_long_id_fields_and_bounds() {
    let ts = SnowflakeLongId::max_timestamp();
    let mid = SnowflakeLongId::max_machine_id();
    let seq = SnowflakeLongId::max_sequence();

    let id = SnowflakeLongId::from(ts, mid, seq);
    println!("ID: {:#?}", id);
    assert_eq!(id.timestamp(), ts);
    assert_eq!(id.machine_id(), mid);
    assert_eq!(id.sequence(), seq);
    assert_eq!(SnowflakeLongId::from_components(ts, mid, seq), id);
}

#[test]
fn twitter_low_bit_fields() {
    let id = SnowflakeTwitterId::from_components(0, 0, 0);
    assert_eq!(id.timestamp(), 0);
    assert_eq!(id.machine_id(), 0);
    assert_eq!(id.sequence(), 0);

    let id = SnowflakeTwitterId::from_components(1, 1, 1);
    assert_eq!(id.timestamp(), 1);
    assert_eq!(id.machine_id(), 1);
    assert_eq!(id.sequence(), 1);
}

#[test]
fn discord_low_bit_fields() {
    let id = SnowflakeDiscordId::from_components(0, 0, 0);
    assert_eq!(id.timestamp(), 0);
    assert_eq!(id.machine_id(), 0);
    assert_eq!(id.sequence(), 0);

    let id = SnowflakeDiscordId::from_components(1, 1, 1);
    assert_eq!(id.timestamp(), 1);
    assert_eq!(id.machine_id(), 1);
    assert_eq!(id.sequence(), 1);
}

#[test]
fn mastodon_low_bit_fields() {
    let id = SnowflakeMastodonId::from_components(0, 0, 0);
    assert_eq!(id.timestamp(), 0);
    assert_eq!(id.machine_id(), 0);
    assert_eq!(id.sequence(), 0);

    let id = SnowflakeMastodonId::from_components(1, 0, 1);
    assert_eq!(id.timestamp(), 1);
    assert_eq!(id.machine_id(), 0); // always zero
    assert_eq!(id.sequence(), 1);
}

#[test]
fn instagram_low_bit_fields() {
    let id = SnowflakeInstagramId::from_components(0, 0, 0);
    assert_eq!(id.timestamp(), 0);
    assert_eq!(id.machine_id(), 0);
    assert_eq!(id.sequence(), 0);

    let id = SnowflakeInstagramId::from_components(1, 1, 1);
    assert_eq!(id.timestamp(), 1);
    assert_eq!(id.machine_id(), 1);
    assert_eq!(id.sequence(), 1);
}

#[test]
fn long_low_bit_fields() {
    let id = SnowflakeLongId::from_components(0, 0, 0);
    assert_eq!(id.timestamp(), 0);
    assert_eq!(id.machine_id(), 0);
    assert_eq!(id.sequence(), 0);

    let id = SnowflakeLongId::from_components(1, 1, 1);
    assert_eq!(id.timestamp(), 1);
    assert_eq!(id.machine_id(), 1);
    assert_eq!(id.sequence(), 1);
}

#[test]
fn twitter_edge_rollover() {
    let id = SnowflakeTwitterId::from_components(0, 0, SnowflakeTwitterId::max_sequence());
    assert_eq!(id.sequence(), SnowflakeTwitterId::max_sequence());

    let id = SnowflakeTwitterId::from_components(0, SnowflakeTwitterId::max_machine_id(), 0);
    assert_eq!(id.machine_id(), SnowflakeTwitterId::max_machine_id());
}

#[test]
fn discord_edge_rollover() {
    let id = SnowflakeDiscordId::from_components(0, 0, SnowflakeDiscordId::max_sequence());
    assert_eq!(id.sequence(), SnowflakeDiscordId::max_sequence());

    let id = SnowflakeDiscordId::from_components(0, SnowflakeDiscordId::max_machine_id(), 0);
    assert_eq!(id.machine_id(), SnowflakeDiscordId::max_machine_id());
}

#[test]
fn mastodon_edge_rollover() {
    let id = SnowflakeMastodonId::from_components(0, 0, SnowflakeMastodonId::max_sequence());
    assert_eq!(id.sequence(), SnowflakeMastodonId::max_sequence());
}

#[test]
fn instagram_edge_rollover() {
    let id = SnowflakeInstagramId::from_components(0, 0, SnowflakeInstagramId::max_sequence());
    assert_eq!(id.sequence(), SnowflakeInstagramId::max_sequence());

    let id =
        SnowflakeInstagramId::from_components(0, SnowflakeInstagramId::max_machine_id(), 0);
    assert_eq!(id.machine_id(), SnowflakeInstagramId::max_machine_id());
}

#[test]
fn long_edge_rollover() {
    let id = SnowflakeLongId::from_components(0, 0, SnowflakeLongId::max_sequence());
    assert_eq!(id.sequence(), SnowflakeLongId::max_sequence());

    let id = SnowflakeLongId::from_components(0, SnowflakeLongId::max_machine_id(), 0);
    assert_eq!(id.machine_id(), SnowflakeLongId::max_machine_id());
}

struct MockRand;
impl RandSource<u128> for MockRand {
    fn rand(&self) -> u128 {
        42
    }
}

#[test]
fn ulid_validity() {
    let id = ULID::from_raw(u128::MAX);
    assert!(id.is_valid());
    let valid = id.into_valid();
    assert!(valid.is_valid());
}

#[test]
fn test_ulid_id_fields_and_bounds() {
    let ts = ULID::max_timestamp();
    let rand = ULID::max_random();

    let id = ULID::from(ts, rand);
    assert_eq!(id.timestamp(), ts);
    assert_eq!(id.random(), rand);
    assert_eq!(ULID::from_components(ts, rand), id);
}

#[test]
fn ulid_low_bit_fields() {
    let id = ULID::from_components(0, 0);
    assert_eq!(id.timestamp(), 0);
    assert_eq!(id.random(), 0);

    let id = ULID::from_components(1, 1);
    assert_eq!(id.timestamp(), 1);
    assert_eq!(id.random(), 1);
}

#[test]
fn ulid_from_timestamp() {
    let id = ULID::from_timestamp(0);
    assert_eq!(id.timestamp(), 0);

    let id = ULID::from_timestamp(ULID::max_timestamp());
    assert_eq!(id.timestamp(), ULID::max_timestamp());
}

#[test]
fn ulid_from_timestamp_and_rand() {
    let id = ULID::from_timestamp_and_rand(42, &MockRand);
    assert_eq!(id.timestamp(), 42);
    assert_eq!(id.random(), 42);
}

#[test]
fn ulid_from_datetime() {
    let id = ULID::from_datetime(std::time::SystemTime::UNIX_EPOCH);
    assert_eq!(id.timestamp(), 0);

    let id = ULID::from_datetime(
        std::time::SystemTime::UNIX_EPOCH + core::time::Duration::from_millis(1000),
    );
    assert_eq!(id.timestamp(), 1000);
}

#[test]
fn ulid_from_datetime_and_rand() {
    let id = ULID::from_datetime_and_rand(
        std::time::SystemTime::UNIX_EPOCH + core::time::Duration::from_millis(42),
        &MockRand,
    );
    assert_eq!(id.timestamp(), 42);
    assert_eq!(id.random(), 42);
}

#[test]
fn ulid_from_datetime_before_epoch_is_epoch() {
    let id = ULID::from_datetime_and_rand(
        std::time::SystemTime::UNIX_EPOCH - core::time::Duration::from_millis(5),
        &MockRand,
    );
    assert_eq!(id.timestamp(), 0);
}

#[test]
fn from_components_truncates_each_field() {
    let id = SnowflakeTwitterId::from_components(
        SnowflakeTwitterId::max_timestamp() + 1,
        SnowflakeTwitterId::max_machine_id() + 2,
        SnowflakeTwitterId::max_sequence() + 3,
    );
    assert_eq!(id.timestamp(), 0);
    assert_eq!(id.machine_id(), 1);
    assert_eq!(id.sequence(), 2);
    assert!(id.is_valid());
}

#[test]
fn twitter_reserved_bit_and_into_valid() {
    let id = SnowflakeTwitterId::from_raw(u64::MAX);
    assert!(!id.is_valid());
    let valid = id.into_valid();
    assert!(valid.is_valid());
    assert_eq!(valid.to_raw(), u64::MAX >> 1);
    assert_eq!(valid.timestamp(), id.timestamp());
}

#[test]
fn twitter_packing_order() {
    let id = SnowflakeTwitterId::from_components(3, 2, 1);
    assert_eq!(id.to_raw(), (3 << 22) | (2 << 12) | 1);
    let max = SnowflakeTwitterId::from_components(
        SnowflakeTwitterId::max_timestamp(),
        SnowflakeTwitterId::max_machine_id(),
        SnowflakeTwitterId::max_sequence(),
    );
    assert_eq!(max.to_raw(), 9_223_372_036_854_775_807);
}

#[test]
fn sequence_increment_and_rollover() {
    let id = SnowflakeTwitterId::from_components(5, 7, 1);
    assert!(id.has_sequence_room());
    assert_eq!(id.next_sequence(), 2);
    let next = id.increment_sequence();
    assert_eq!((next.timestamp(), next.machine_id(), next.sequence()), (5, 7, 2));
    let later = id.rollover_to_timestamp(9);
    assert_eq!((later.timestamp(), later.machine_id(), later.sequence()), (9, 7, 0));
    let full = SnowflakeTwitterId::from_components(5, 7, SnowflakeTwitterId::max_sequence());
    assert!(!full.has_sequence_room());
}

#[test]
fn ulid_random_increment_and_rollover() {
    let id = ULID::from_components(5, 1);
    assert!(id.has_random_room());
    assert_eq!(id.next_random(), 2);
    assert_eq!(id.increment_random().random(), 2);
    let later = id.rollover_to_timestamp(9, 77);
    assert_eq!((later.timestamp(), later.random()), (9, 77));
    assert!(!ULID::from_components(5, ULID::max_random()).has_random_room());
}

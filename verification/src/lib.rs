//! Time-sortable identifiers: Snowflake-style IDs and ULIDs, their Crockford
//! Base32 text form, and the generators that hand them out in order.

pub mod army;
pub mod base32;
pub mod generator;
pub mod id;
pub mod rand;
pub mod time;

pub use crate::base32::{
    decode_base32, encode_base32, Base32Error, Base32Ext, Base32SnowExt, Base32SnowFormatter,
    Base32SnowFormatterRef, Base32UlidExt, Base32UlidFormatter, Base32UlidFormatterRef, BeBytes,
};
pub use crate::army::Army;
pub use crate::generator::{
    AtomicMonoUlidGenerator, AtomicSnowflakeGenerator, BasicMonoUlidGenerator,
    BasicSnowflakeGenerator, BasicUlidGenerator, Error, IdGenStatus, LockMonoUlidGenerator,
    LockSnowflakeGenerator, LockUlidGenerator, SnowflakeGenerator, UlidGenerator,
};
pub use crate::id::SnowflakeId as Snowflake;
pub use crate::id::{
    Id, IdScalar, SnowflakeDiscordId, SnowflakeId, SnowflakeInstagramId, SnowflakeLongId,
    SnowflakeMastodonId, SnowflakeTwitterId, ToU64, Ulid, UlidId, ULID,
};
pub use crate::rand::{RandSource, ThreadRandom};
pub use crate::time::{
    backoff_millis, lemma_unix_millis_is_duration_millis, spec_duration_millis,
    spec_duration_since_epoch, spec_unix_millis, unix_millis,
    TimeSource,
};

mod interface;
mod scalar;
mod snowflake;
mod ulid;

pub use interface::{Id, SnowflakeId, UlidId};
pub use scalar::{IdScalar, ToU64};
pub use snowflake::{
    SnowflakeDiscordId, SnowflakeInstagramId, SnowflakeLongId, SnowflakeMastodonId,
    SnowflakeTwitterId,
};
pub use ulid::{Ulid, ULID};

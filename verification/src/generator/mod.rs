mod atomic;
mod error;
mod interface;
mod lock;
mod snowflake;
mod status;
mod ulid;

pub use atomic::{
    atomic_mono_ulid_outcome, atomic_snowflake_outcome,
    lemma_atomic_snowflake_run_keeps_machine, AtomicMonoUlidGenerator,
    AtomicSnowflakeGenerator,
};
pub use error::Error;
pub use interface::{SnowflakeGenerator, UlidGenerator};
pub use lock::{
    lemma_lock_snowflake_run_keeps_machine, locked_mono_ulid_outcome, locked_snowflake_outcome, LockMonoUlidGenerator,
    LockSnowflakeGenerator, LockUlidGenerator,
};
pub use snowflake::{
    basic_snowflake_poll, lemma_basic_snowflake_polls_increase,
    lemma_snowflake_run_increases, lemma_snowflake_step_increases,
    lemma_snowflake_step_sorts_as_text, next_snowflake_state, snowflake_run, snowflake_step,
    BasicSnowflakeGenerator,
};
pub use status::IdGenStatus;
pub use ulid::{
    basic_ulid_gen, lemma_basic_ulid_gen_deterministic, lemma_basic_ulid_gen_uses_sources,
    basic_mono_ulid_poll, lemma_basic_mono_ulid_polls_increase, lemma_basic_mono_ulid_same_millis,
    lemma_mono_ulid_run_increases, lemma_mono_ulid_step_increases,
    lemma_mono_ulid_step_sorts_as_text, mono_ulid_run, mono_ulid_step, next_mono_ulid_state,
    BasicMonoUlidGenerator, BasicUlidGenerator,
};

use core::marker::PhantomData;
use vstd::prelude::*;

use super::interface::{SnowflakeGenerator, UlidGenerator};
use super::snowflake::{next_snowflake_state, snowflake_step, with_machine};
use super::status::IdGenStatus;
use super::ulid::{mono_ulid_step, next_mono_ulid_state};
use crate::id::{Id, IdScalar, SnowflakeId, UlidId};
use crate::rand::RandSource;
use crate::time::TimeSource;

verus! {

/// A 64-bit integer that threads update atomically.
#[verifier::external_type_specification]
#[verifier::external_body]
pub struct ExAtomicU64(portable_atomic::AtomicU64);

/// A 128-bit integer that threads update atomically.
#[verifier::external_type_specification]
#[verifier::external_body]
pub struct ExAtomicU128(portable_atomic::AtomicU128);

/// `AtomicU64::new`. Other threads may change the value afterwards, so
/// nothing is stated of it.
#[verifier::external_body]
fn atomic_u64_new(v: u64) -> portable_atomic::AtomicU64 {
    portable_atomic::AtomicU64::new(v)
}

/// `AtomicU64::load` with relaxed ordering: whatever value the integer holds
/// at that moment, so nothing is stated of it.
#[verifier::external_body]
fn atomic_u64_load(a: &portable_atomic::AtomicU64) -> u64 {
    a.load(portable_atomic::Ordering::Relaxed)
}

/// `AtomicU64::compare_exchange` with relaxed orderings: stores `new` if the
/// integer holds `current`. On success it returns `Ok` with the previous
/// value, which is `current`; otherwise `Err` with the value found, which
/// differs from `current`.
#[verifier::external_body]
fn atomic_u64_compare_exchange(a: &portable_atomic::AtomicU64, current: u64, new: u64) -> (r:
    Result<u64, u64>)
    ensures
        r matches Ok(v) ==> v == current,
        r matches Err(v) ==> v != current,
{
    a.compare_exchange(current, new, portable_atomic::Ordering::Relaxed, portable_atomic::Ordering::Relaxed)
}

/// `AtomicU128::new`. Other threads may change the value afterwards, so
/// nothing is stated of it.
#[verifier::external_body]
fn atomic_u128_new(v: u128) -> portable_atomic::AtomicU128 {
    portable_atomic::AtomicU128::new(v)
}

/// `AtomicU128::load` with relaxed ordering: whatever value the integer
/// holds at that moment, so nothing is stated of it.
#[verifier::external_body]
fn atomic_u128_load(a: &portable_atomic::AtomicU128) -> u128 {
    a.load(portable_atomic::Ordering::Relaxed)
}

/// `AtomicU128::compare_exchange` with relaxed orderings: stores `new` if the
/// integer holds `current`. On success it returns `Ok` with the previous
/// value, which is `current`; otherwise `Err` with the value found, which
/// differs from `current`.
#[verifier::external_body]
fn atomic_u128_compare_exchange(a: &portable_atomic::AtomicU128, current: u128, new: u128) -> (r:
    Result<u128, u128>)
    ensures
        r matches Ok(v) ==> v == current,
        r matches Err(v) ==> v != current,
{
    a.compare_exchange(current, new, portable_atomic::Ordering::Relaxed, portable_atomic::Ordering::Relaxed)
}

/// What one attempt of a lock-free Snowflake generator for machine `machine`
/// with clock `time` can give: a step of [`snowflake_step`] from the last ID
/// some thread stored, which carries that machine ID, at a reading that the
/// clock can return, or, when another thread stored a new ID first, a
/// request to retry at once.
pub open spec fn atomic_snowflake_outcome<ID: SnowflakeId, T: TimeSource<ID::Ty>>(
    r: IdGenStatus<ID>,
    machine: nat,
    time: T,
) -> bool {
    ||| exists|prev: ID, now: ID::Ty, next: ID|
        {
            &&& call_ensures(<T as TimeSource<ID::Ty>>::current_millis, (&time,), now)
            &&& prev.spec_machine_id() == machine
            &&& snowflake_step(prev, now, next, r)
        }
    ||| r matches IdGenStatus::Pending { yield_for } && yield_for.as_nat() == 0
}

/// A lock-free Snowflake generator that threads can share: the last ID is
/// kept in an atomic integer and replaced with compare-and-swap.
pub struct AtomicSnowflakeGenerator<ID, T> where ID: SnowflakeId<Ty = u64>, T: TimeSource<u64> {
    state: portable_atomic::AtomicU64,
    machine: u64,
    time: T,
    start: Ghost<ID>,
    _id: PhantomData<ID>,
}

impl<ID, T> AtomicSnowflakeGenerator<ID, T> where ID: SnowflakeId<Ty = u64>, T: TimeSource<u64> {
    /// The machine ID kept beside the atomic integer is that of the start ID.
    #[verifier::type_invariant]
    spec fn inv(self) -> bool {
        self.machine.as_nat() == self.start@.spec_machine_id()
    }

    /// The clock this generator reads.
    pub closed spec fn spec_time(&self) -> T {
        self.time
    }

    /// The ID stored in the atomic integer when the generator was made.
    pub closed spec fn spec_start(&self) -> ID {
        self.start@
    }

    /// Creates a generator for `machine_id` whose timestamp and sequence
    /// start at zero, reading the time from `time`.
    pub fn new(machine_id: u64, time: T) -> (r: Self)
        ensures
            r.spec_time() == time,
            r.spec_start().spec_is_valid(),
            r.spec_start().spec_timestamp() == 0,
            r.spec_start().spec_machine_id() == machine_id.as_nat() % (ID::spec_max_machine_id() + 1),
            r.spec_start().spec_sequence() == 0,
    {
        proof {
            vstd::arithmetic::div_mod::lemma_small_mod(0, ID::spec_max_timestamp() + 1);
            vstd::arithmetic::div_mod::lemma_small_mod(0, ID::spec_max_sequence() + 1);
        }
        Self::from_components(0, machine_id, 0, time)
    }

    /// Creates a generator whose state starts at the given components, each
    /// truncated to the width of its field.
    pub fn from_components(timestamp: u64, machine_id: u64, sequence: u64, time: T) -> (r: Self)
        ensures
            r.spec_time() == time,
            r.spec_start().spec_is_valid(),
            r.spec_start().spec_timestamp() == timestamp.as_nat() % (ID::spec_max_timestamp() + 1),
            r.spec_start().spec_machine_id() == machine_id.as_nat() % (ID::spec_max_machine_id() + 1),
            r.spec_start().spec_sequence() == sequence.as_nat() % (ID::spec_max_sequence() + 1),
    {
        let initial = ID::from_components(timestamp, machine_id, sequence);
        let machine = initial.machine_id();
        AtomicSnowflakeGenerator {
            state: atomic_u64_new(initial.to_raw()),
            machine,
            time,
            start: Ghost(initial),
            _id: PhantomData,
        }
    }

    /// Attempts to generate the next ID: one step of [`snowflake_step`] from
    /// the last stored ID, published with compare-and-swap; if another thread
    /// published first, it asks to retry at once. The machine ID is the
    /// generator's own: every ID stored and handed out carries it.
    pub fn poll_id(&self) -> (r: IdGenStatus<ID>)
        ensures
            atomic_snowflake_outcome(r, self.spec_start().spec_machine_id(), self.spec_time()),
            r matches IdGenStatus::Ready { id } ==> id.spec_is_valid() && id.spec_machine_id()
                == self.spec_start().spec_machine_id(),
    {
        proof {
            use_type_invariant(self);
            self.start@.lemma_layout();
        }
        let read_clock = <T as TimeSource<u64>>::current_millis;
        let now = read_clock(&self.time);
        let current_raw = atomic_u64_load(&self.state);
        let current_id = with_machine(ID::from_raw(current_raw), self.machine);
        let (next_id, status) = next_snowflake_state(current_id, now);
        if let IdGenStatus::Pending { .. } = status {
            return status;
        }
        let next_raw = next_id.to_raw();
        match atomic_u64_compare_exchange(&self.state, current_raw, next_raw) {
            Ok(_) => status,
            Err(_) => IdGenStatus::Pending { yield_for: <u64 as IdScalar>::zero() },
        }
    }

    /// [`Self::poll_id`] in the fallible form; it never fails.
    pub fn try_poll_id(&self) -> (r: Result<IdGenStatus<ID>, core::convert::Infallible>)
        ensures
            r matches Ok(status) && atomic_snowflake_outcome(
                status,
                self.spec_start().spec_machine_id(),
                self.spec_time(),
            ) && (status matches IdGenStatus::Ready { id } ==> id.spec_is_valid()
                && id.spec_machine_id() == self.spec_start().spec_machine_id()),
    {
        Ok(self.poll_id())
    }
}

impl<ID, T> SnowflakeGenerator<ID, T> for AtomicSnowflakeGenerator<ID, T> where
    ID: SnowflakeId<Ty = u64>,
    T: TimeSource<u64>,
 {
    type Err = core::convert::Infallible;

    /// The generator itself is unchanged (its state lives in the atomic
    /// integer), and the answer is an outcome of one lock-free attempt.
    open spec fn spec_try_next(before: Self, after: Self, r: Result<IdGenStatus<ID>, core::convert::Infallible>) -> bool {
        &&& after == before
        &&& r matches Ok(status) && atomic_snowflake_outcome(
            status,
            before.spec_start().spec_machine_id(),
            before.spec_time(),
        )
    }

    fn new(machine_id: u64, time: T) -> (r: Self)
        ensures
            r.spec_time() == time,
            r.spec_start().spec_is_valid(),
            r.spec_start().spec_timestamp() == 0,
            r.spec_start().spec_machine_id() == machine_id.as_nat() % (ID::spec_max_machine_id() + 1),
            r.spec_start().spec_sequence() == 0,
    {
        AtomicSnowflakeGenerator::new(machine_id, time)
    }

    fn next_id(&mut self) -> (r: IdGenStatus<ID>)
        ensures
            atomic_snowflake_outcome(r, old(self).spec_start().spec_machine_id(), old(self).spec_time()),
            r matches IdGenStatus::Ready { id } ==> id.spec_machine_id()
                == old(self).spec_start().spec_machine_id(),
    {
        self.poll_id()
    }

    fn try_next_id(&mut self) -> (r: Result<IdGenStatus<ID>, core::convert::Infallible>)
        ensures
            r matches Ok(status) && atomic_snowflake_outcome(
                status,
                old(self).spec_start().spec_machine_id(),
                old(self).spec_time(),
            ),
            r matches Ok(IdGenStatus::Ready { id }) ==> id.spec_machine_id()
                == old(self).spec_start().spec_machine_id(),
    {
        Ok(self.poll_id())
    }
}

/// What one attempt of a lock-free monotonic ULID generator with clock `time`
/// and random source `rng` can give: a step of [`mono_ulid_step`] from the
/// last ID some thread stored, at a reading that the clock can return, with
/// a value that the random source can return where the reading is past that
/// ID's timestamp (zero otherwise), or, when another thread stored a new ID
/// first, a request to retry at once.
pub open spec fn atomic_mono_ulid_outcome<ID: UlidId, T: TimeSource<ID::Ty>, R: RandSource<ID::Ty>>(
    r: IdGenStatus<ID>,
    time: T,
    rng: R,
) -> bool {
    ||| exists|prev: ID, now: ID::Ty, rand: ID::Ty, next: ID|
        {
            &&& call_ensures(<T as TimeSource<ID::Ty>>::current_millis, (&time,), now)
            &&& prev.spec_timestamp() < now.as_nat() ==> call_ensures(
                <R as RandSource<ID::Ty>>::rand,
                (&rng,),
                rand,
            )
            &&& prev.spec_timestamp() >= now.as_nat() ==> rand.as_nat() == 0
            &&& mono_ulid_step(prev, now, rand, next, r)
        }
    ||| r matches IdGenStatus::Pending { yield_for } && yield_for.as_nat() == 0
}

/// A lock-free monotonic ULID generator that threads can share: the last ID
/// is kept in an atomic integer and replaced with compare-and-swap.
pub struct AtomicMonoUlidGenerator<ID, T, R> where
    ID: UlidId<Ty = u128>,
    T: TimeSource<u128>,
    R: RandSource<u128>,
 {
    state: portable_atomic::AtomicU128,
    time: T,
    rng: R,
    start: Ghost<ID>,
    _id: PhantomData<ID>,
}

impl<ID, T, R> AtomicMonoUlidGenerator<ID, T, R> where
    ID: UlidId<Ty = u128>,
    T: TimeSource<u128>,
    R: RandSource<u128>,
 {
    /// The clock this generator reads.
    pub closed spec fn spec_time(&self) -> T {
        self.time
    }

    /// The random source this generator draws from.
    pub closed spec fn spec_rng(&self) -> R {
        self.rng
    }

    /// The ID stored in the atomic integer when the generator was made.
    pub closed spec fn spec_start(&self) -> ID {
        self.start@
    }

    /// Creates a generator whose state starts at timestamp and random part
    /// zero.
    pub fn new(time: T, rng: R) -> (r: Self)
        ensures
            r.spec_time() == time,
            r.spec_rng() == rng,
            r.spec_start().spec_is_valid(),
            r.spec_start().spec_timestamp() == 0,
            r.spec_start().spec_random() == 0,
    {
        proof {
            vstd::arithmetic::div_mod::lemma_small_mod(0, ID::spec_max_timestamp() + 1);
            vstd::arithmetic::div_mod::lemma_small_mod(0, ID::spec_max_random() + 1);
        }
        Self::from_components(0, 0, time, rng)
    }

    /// Creates a generator whose state starts at the given components, each
    /// truncated to the width of its field.
    pub fn from_components(timestamp: u128, random: u128, time: T, rng: R) -> (r: Self)
        ensures
            r.spec_time() == time,
            r.spec_rng() == rng,
            r.spec_start().spec_is_valid(),
            r.spec_start().spec_timestamp() == timestamp.as_nat() % (ID::spec_max_timestamp() + 1),
            r.spec_start().spec_random() == random.as_nat() % (ID::spec_max_random() + 1),
    {
        let initial = ID::from_components(timestamp, random);
        AtomicMonoUlidGenerator {
            state: atomic_u128_new(initial.to_raw()),
            time,
            rng,
            start: Ghost(initial),
            _id: PhantomData,
        }
    }

    /// Attempts to generate the next ID: one step of [`mono_ulid_step`] from
    /// the last stored ID, published with compare-and-swap; if another thread
    /// published first, it asks to retry at once. A random value is drawn
    /// only when the millisecond has moved on.
    pub fn poll_id(&self) -> (r: IdGenStatus<ID>)
        ensures
            atomic_mono_ulid_outcome(r, self.spec_time(), self.spec_rng()),
            r matches IdGenStatus::Ready { id } ==> id.spec_is_valid(),
    {
        let read_clock = <T as TimeSource<u128>>::current_millis;
        let draw = <R as RandSource<u128>>::rand;
        let now = read_clock(&self.time);
        let current_raw = atomic_u128_load(&self.state);
        let current_id = ID::from_raw(current_raw);
        let current_ts = current_id.timestamp();
        let rand = if current_ts < now {
            draw(&self.rng)
        } else {
            0
        };
        let (next_id, status) = next_mono_ulid_state(current_id, now, rand);
        if let IdGenStatus::Pending { .. } = status {
            return status;
        }
        let next_raw = next_id.to_raw();
        match atomic_u128_compare_exchange(&self.state, current_raw, next_raw) {
            Ok(_) => status,
            Err(_) => IdGenStatus::Pending { yield_for: <u128 as IdScalar>::zero() },
        }
    }

    /// [`Self::poll_id`] in the fallible form; it never fails.
    pub fn try_poll_id(&self) -> (r: Result<IdGenStatus<ID>, core::convert::Infallible>)
        ensures
            r matches Ok(status) && atomic_mono_ulid_outcome(
                status,
                self.spec_time(),
                self.spec_rng(),
            ) && (status matches IdGenStatus::Ready { id } ==> id.spec_is_valid()),
    {
        Ok(self.poll_id())
    }
}

impl<ID, T, R> UlidGenerator<ID, T, R> for AtomicMonoUlidGenerator<ID, T, R> where
    ID: UlidId<Ty = u128>,
    T: TimeSource<u128>,
    R: RandSource<u128>,
 {
    type Err = core::convert::Infallible;

    /// The generator itself is unchanged (its state lives in the atomic
    /// integer), and the answer is an outcome of one lock-free attempt.
    open spec fn spec_try_next(before: Self, after: Self, r: Result<IdGenStatus<ID>, core::convert::Infallible>) -> bool {
        &&& after == before
        &&& r matches Ok(status) && atomic_mono_ulid_outcome(
            status,
            before.spec_time(),
            before.spec_rng(),
        )
    }

    fn new(time: T, rng: R) -> (r: Self)
        ensures
            r.spec_time() == time,
            r.spec_rng() == rng,
            r.spec_start().spec_is_valid(),
            r.spec_start().spec_timestamp() == 0,
            r.spec_start().spec_random() == 0,
    {
        AtomicMonoUlidGenerator::new(time, rng)
    }

    fn next_id(&mut self) -> (r: IdGenStatus<ID>)
        ensures
            atomic_mono_ulid_outcome(r, old(self).spec_time(), old(self).spec_rng()),
    {
        self.poll_id()
    }

    fn try_next_id(&mut self) -> (r: Result<IdGenStatus<ID>, core::convert::Infallible>)
        ensures
            r matches Ok(status) && atomic_mono_ulid_outcome(
                status,
                old(self).spec_time(),
                old(self).spec_rng(),
            ),
    {
        Ok(self.poll_id())
    }
}

/// However many times a lock-free Snowflake generator is asked for an ID
/// (`gens[i]` answering `results[i]` and becoming `gens[i + 1]`), every ID it
/// hands out carries the machine ID of the generator's start ID.
pub proof fn lemma_atomic_snowflake_run_keeps_machine<ID: SnowflakeId<Ty = u64>, T: TimeSource<u64>>(
    gens: Seq<AtomicSnowflakeGenerator<ID, T>>,
    results: Seq<Result<IdGenStatus<ID>, core::convert::Infallible>>,
    k: int,
)
    requires
        gens.len() == results.len() + 1,
        forall|i: int|
            0 <= i < results.len() ==> #[trigger] <AtomicSnowflakeGenerator<ID, T> as SnowflakeGenerator<
                ID,
                T,
            >>::spec_try_next(gens[i], gens[i + 1], results[i]),
        0 <= k < results.len(),
    ensures
        gens[k] == gens[0],
        results[k] matches Ok(IdGenStatus::Ready { id }) ==> id.spec_machine_id()
            == gens[0].spec_start().spec_machine_id(),
    decreases k,
{
    if k > 0 {
        lemma_atomic_snowflake_run_keeps_machine(gens, results, k - 1);
        let j: int = k - 1;
        assert(<AtomicSnowflakeGenerator<ID, T> as SnowflakeGenerator<ID, T>>::spec_try_next(
            gens[j],
            gens[j + 1],
            results[j],
        ));
    }
    assert(<AtomicSnowflakeGenerator<ID, T> as SnowflakeGenerator<ID, T>>::spec_try_next(
        gens[k],
        gens[k + 1],
        results[k],
    ));
}

} // verus!

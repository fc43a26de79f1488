use vstd::prelude::*;

use super::error::Error;
use super::interface::{SnowflakeGenerator, UlidGenerator};
use super::snowflake::{next_snowflake_state, snowflake_step, with_machine};
use super::status::IdGenStatus;
use super::ulid::{mono_ulid_step, next_mono_ulid_state};
use crate::id::{Id, IdScalar, SnowflakeId, UlidId};
use crate::rand::RandSource;
use crate::time::TimeSource;

verus! {

/// A mutual-exclusion lock of the standard library.
#[verifier::external_type_specification]
#[verifier::external_body]
#[verifier::reject_recursive_types(T)]
pub struct ExMutex<T: ?Sized>(std::sync::Mutex<T>);

/// The guard of a held lock; dropping it releases the lock.
#[verifier::external_type_specification]
#[verifier::external_body]
#[verifier::reject_recursive_types(T)]
pub struct ExMutexGuard<'a, T: ?Sized + 'a>(std::sync::MutexGuard<'a, T>);

/// The error of a lock that a thread panicked while holding.
#[verifier::external_type_specification]
#[verifier::external_body]
#[verifier::reject_recursive_types(G)]
pub struct ExPoisonError<G>(std::sync::PoisonError<G>);

/// `Mutex::new`. Other threads may change the value afterwards, so nothing
/// is stated of it.
#[verifier::external_body]
fn mutex_new<T>(v: T) -> std::sync::Mutex<T> {
    std::sync::Mutex::new(v)
}

/// `Mutex::lock`: waits for the lock and returns its guard, or an error
/// holding the guard when the lock is poisoned.
///
/// The standard library leaves locking again from a thread that already
/// holds the lock undefined (it may deadlock or panic). The generators here
/// never do: they release each guard before taking the lock again, and they
/// call no clock or random source while they hold it.
#[verifier::external_body]
fn mutex_lock<'a, T>(m: &'a std::sync::Mutex<T>) -> Result<
    std::sync::MutexGuard<'a, T>,
    std::sync::PoisonError<std::sync::MutexGuard<'a, T>>,
> {
    m.lock()
}

/// `PoisonError::into_inner`: the guard that a poisoned lock still hands out.
#[verifier::external_body]
fn poison_into_guard<'a, T>(e: std::sync::PoisonError<std::sync::MutexGuard<'a, T>>) -> std::sync::MutexGuard<'a, T> {
    e.into_inner()
}

/// Reads the value behind a held lock, through `Deref`. Which value another
/// thread stored last is not stated.
#[verifier::external_body]
fn guard_read<'a, T: Copy>(g: &std::sync::MutexGuard<'a, T>) -> T {
    **g
}

/// Replaces the value behind a held lock, through `DerefMut`.
#[verifier::external_body]
fn guard_write<'a, T>(g: &mut std::sync::MutexGuard<'a, T>, v: T) {
    **g = v;
}

/// What one attempt of a locking Snowflake generator for machine `machine`
/// with clock `time` gives: a step of [`snowflake_step`] from the last ID
/// some thread stored, which carries that machine ID, at a reading that the
/// clock can return.
pub open spec fn locked_snowflake_outcome<ID: SnowflakeId, T: TimeSource<ID::Ty>>(
    r: IdGenStatus<ID>,
    machine: nat,
    time: T,
) -> bool {
    exists|prev: ID, now: ID::Ty, next: ID|
        {
            &&& call_ensures(<T as TimeSource<ID::Ty>>::current_millis, (&time,), now)
            &&& prev.spec_machine_id() == machine
            &&& snowflake_step(prev, now, next, r)
        }
}

/// A thread-safe Snowflake generator: the last ID is kept behind a lock.
#[verifier::reject_recursive_types(ID)]
pub struct LockSnowflakeGenerator<ID, T> where ID: SnowflakeId, T: TimeSource<ID::Ty> {
    state: std::sync::Mutex<ID>,
    machine: ID::Ty,
    time: T,
    start: Ghost<ID>,
}

impl<ID, T> LockSnowflakeGenerator<ID, T> where ID: SnowflakeId, T: TimeSource<ID::Ty> {
    /// The machine ID kept beside the lock is that of the start ID.
    #[verifier::type_invariant]
    spec fn inv(self) -> bool {
        self.machine.as_nat() == self.start@.spec_machine_id()
    }

    /// The clock this generator reads.
    pub closed spec fn spec_time(&self) -> T {
        self.time
    }

    /// The ID put behind the lock when the generator was made.
    pub closed spec fn spec_start(&self) -> ID {
        self.start@
    }

    /// Creates a generator for `machine_id` whose timestamp and sequence
    /// start at zero, reading the time from `time`.
    pub fn new(machine_id: ID::Ty, time: T) -> (r: Self)
        ensures
            r.spec_time() == time,
            r.spec_start().spec_is_valid(),
            r.spec_start().spec_timestamp() == 0,
            r.spec_start().spec_machine_id() == machine_id.as_nat() % (ID::spec_max_machine_id() + 1),
            r.spec_start().spec_sequence() == 0,
    {
        proof {
            vstd::arithmetic::div_mod::lemma_small_mod(0, ID::spec_max_timestamp() + 1);
            vstd::arithmetic::div_mod::lemma_small_mod(0, ID::spec_max_sequence() + 1);
        }
        Self::from_components(
            <ID::Ty as IdScalar>::zero(),
            machine_id,
            <ID::Ty as IdScalar>::zero(),
            time,
        )
    }

    /// Creates a generator whose state starts at the given components, each
    /// truncated to the width of its field.
    pub fn from_components(timestamp: ID::Ty, machine_id: ID::Ty, sequence: ID::Ty, time: T) -> (r:
        Self)
        ensures
            r.spec_time() == time,
            r.spec_start().spec_is_valid(),
            r.spec_start().spec_timestamp() == timestamp.as_nat() % (ID::spec_max_timestamp() + 1),
            r.spec_start().spec_machine_id() == machine_id.as_nat() % (ID::spec_max_machine_id() + 1),
            r.spec_start().spec_sequence() == sequence.as_nat() % (ID::spec_max_sequence() + 1),
    {
        let id = ID::from_components(timestamp, machine_id, sequence);
        let machine = id.machine_id();
        LockSnowflakeGenerator { state: mutex_new(id), machine, time, start: Ghost(id) }
    }

    /// One step of [`snowflake_step`] on the ID behind a held lock. The
    /// machine ID is the generator's own, `machine`: every ID stored behind
    /// the lock carries it, and every ID handed out does too.
    fn step_locked(
        guard: &mut std::sync::MutexGuard<'_, ID>,
        machine: ID::Ty,
        now: ID::Ty,
        Ghost(time): Ghost<T>,
    ) -> (r: IdGenStatus<ID>)
        requires
            machine.as_nat() <= ID::spec_max_machine_id(),
            call_ensures(<T as TimeSource<ID::Ty>>::current_millis, (&time,), now),
        ensures
            locked_snowflake_outcome(r, machine.as_nat(), time),
            r matches IdGenStatus::Ready { id } ==> id.spec_is_valid() && id.spec_machine_id()
                == machine.as_nat(),
    {
        let stored = guard_read(guard);
        let current = with_machine(stored, machine);
        let (next, status) = next_snowflake_state(current, now);
        guard_write(guard, next);
        status
    }

    /// Attempts to generate the next ID under the lock: one step of
    /// [`snowflake_step`] from the last ID. Fails with `LockPoisoned` when a
    /// thread panicked while holding the lock.
    pub fn try_next_id(&self) -> (r: Result<IdGenStatus<ID>, Error>)
        ensures
            r matches Ok(status) ==> locked_snowflake_outcome(
                status,
                self.spec_start().spec_machine_id(),
                self.spec_time(),
            ) && (status matches IdGenStatus::Ready { id } ==> id.spec_is_valid()
                && id.spec_machine_id() == self.spec_start().spec_machine_id()),
            r matches Err(e) ==> e is LockPoisoned,
    {
        proof {
            use_type_invariant(self);
            self.start@.lemma_layout();
        }
        let read_clock = <T as TimeSource<ID::Ty>>::current_millis;
        let now = read_clock(&self.time);
        match mutex_lock(&self.state) {
            Ok(mut guard) => Ok(Self::step_locked(&mut guard, self.machine, now, Ghost(self.time))),
            Err(_) => Err(Error::LockPoisoned),
        }
    }

    /// Generates under the lock like [`Self::try_next_id`], taking over the
    /// lock even when it is poisoned: the state is a single identifier, which
    /// a panicking thread cannot leave half-written.
    pub fn next_id(&self) -> (r: IdGenStatus<ID>)
        ensures
            locked_snowflake_outcome(r, self.spec_start().spec_machine_id(), self.spec_time()),
            r matches IdGenStatus::Ready { id } ==> id.spec_is_valid() && id.spec_machine_id()
                == self.spec_start().spec_machine_id(),
    {
        proof {
            use_type_invariant(self);
            self.start@.lemma_layout();
        }
        let read_clock = <T as TimeSource<ID::Ty>>::current_millis;
        let now = read_clock(&self.time);
        let mut guard = match mutex_lock(&self.state) {
            Ok(guard) => guard,
            Err(e) => poison_into_guard(e),
        };
        Self::step_locked(&mut guard, self.machine, now, Ghost(self.time))
    }
}

impl<ID, T> SnowflakeGenerator<ID, T> for LockSnowflakeGenerator<ID, T> where
    ID: SnowflakeId,
    T: TimeSource<ID::Ty>,
 {
    type Err = Error;

    /// The generator itself is unchanged (its state lives behind the lock),
    /// and the answer is a step from the state behind the lock, or
    /// `LockPoisoned`.
    open spec fn spec_try_next(before: Self, after: Self, r: Result<IdGenStatus<ID>, Error>) -> bool {
        &&& after == before
        &&& r matches Ok(status) ==> locked_snowflake_outcome(
            status,
            before.spec_start().spec_machine_id(),
            before.spec_time(),
        )
        &&& r matches Err(e) ==> e is LockPoisoned
    }

    fn new(machine_id: ID::Ty, time: T) -> (r: Self)
        ensures
            r.spec_time() == time,
            r.spec_start().spec_is_valid(),
            r.spec_start().spec_timestamp() == 0,
            r.spec_start().spec_machine_id() == machine_id.as_nat() % (ID::spec_max_machine_id() + 1),
            r.spec_start().spec_sequence() == 0,
    {
        LockSnowflakeGenerator::new(machine_id, time)
    }

    fn next_id(&mut self) -> (r: IdGenStatus<ID>)
        ensures
            locked_snowflake_outcome(r, old(self).spec_start().spec_machine_id(), old(self).spec_time()),
            r matches IdGenStatus::Ready { id } ==> id.spec_machine_id()
                == old(self).spec_start().spec_machine_id(),
    {
        LockSnowflakeGenerator::next_id(self)
    }

    fn try_next_id(&mut self) -> (r: Result<IdGenStatus<ID>, Error>)
        ensures
            r matches Ok(status) ==> locked_snowflake_outcome(
                status,
                old(self).spec_start().spec_machine_id(),
                old(self).spec_time(),
            ),
            r matches Ok(IdGenStatus::Ready { id }) ==> id.spec_machine_id()
                == old(self).spec_start().spec_machine_id(),
            r matches Err(e) ==> e is LockPoisoned,
    {
        LockSnowflakeGenerator::try_next_id(self)
    }
}

/// What one attempt of a locking monotonic ULID generator with clock `time`
/// and random source `rng` gives: a step of [`mono_ulid_step`] from the last
/// ID some thread stored, at a reading that the clock can return, with a
/// value that the random source can return, or zero where none was drawn.
pub open spec fn locked_mono_ulid_outcome<ID: UlidId, T: TimeSource<ID::Ty>, R: RandSource<ID::Ty>>(
    r: IdGenStatus<ID>,
    time: T,
    rng: R,
) -> bool {
    exists|prev: ID, now: ID::Ty, rand: ID::Ty, next: ID|
        {
            &&& call_ensures(<T as TimeSource<ID::Ty>>::current_millis, (&time,), now)
            &&& (rand.as_nat() == 0 || call_ensures(<R as RandSource<ID::Ty>>::rand, (&rng,), rand))
            &&& mono_ulid_step(prev, now, rand, next, r)
        }
}

/// A thread-safe monotonic ULID generator: the last ID is kept behind a
/// lock.
#[verifier::reject_recursive_types(ID)]
pub struct LockMonoUlidGenerator<ID, T, R> where
    ID: UlidId,
    T: TimeSource<ID::Ty>,
    R: RandSource<ID::Ty>,
 {
    state: std::sync::Mutex<ID>,
    time: T,
    rng: R,
    start: Ghost<ID>,
}

/// The locking ULID generator under its earlier name.
pub type LockUlidGenerator<ID, T, R> = LockMonoUlidGenerator<ID, T, R>;

impl<ID, T, R> LockMonoUlidGenerator<ID, T, R> where
    ID: UlidId,
    T: TimeSource<ID::Ty>,
    R: RandSource<ID::Ty>,
 {
    /// The clock this generator reads.
    pub closed spec fn spec_time(&self) -> T {
        self.time
    }

    /// The random source this generator draws from.
    pub closed spec fn spec_rng(&self) -> R {
        self.rng
    }

    /// The ID put behind the lock when the generator was made.
    pub closed spec fn spec_start(&self) -> ID {
        self.start@
    }

    /// Creates a generator whose state starts at timestamp and random part
    /// zero.
    pub fn new(time: T, rng: R) -> (r: Self)
        ensures
            r.spec_time() == time,
            r.spec_rng() == rng,
            r.spec_start().spec_is_valid(),
            r.spec_start().spec_timestamp() == 0,
            r.spec_start().spec_random() == 0,
    {
        proof {
            vstd::arithmetic::div_mod::lemma_small_mod(0, ID::spec_max_timestamp() + 1);
            vstd::arithmetic::div_mod::lemma_small_mod(0, ID::spec_max_random() + 1);
        }
        Self::from_components(<ID::Ty as IdScalar>::zero(), <ID::Ty as IdScalar>::zero(), time, rng)
    }

    /// Creates a generator whose state starts at the given components, each
    /// truncated to the width of its field.
    pub fn from_components(timestamp: ID::Ty, random: ID::Ty, time: T, rng: R) -> (r: Self)
        ensures
            r.spec_time() == time,
            r.spec_rng() == rng,
            r.spec_start().spec_is_valid(),
            r.spec_start().spec_timestamp() == timestamp.as_nat() % (ID::spec_max_timestamp() + 1),
            r.spec_start().spec_random() == random.as_nat() % (ID::spec_max_random() + 1),
    {
        let id = ID::from_components(timestamp, random);
        LockMonoUlidGenerator { state: mutex_new(id), time, rng, start: Ghost(id) }
    }

    /// One step of [`mono_ulid_step`] on the ID behind a held lock, with the
    /// random value `rand` drawn beforehand.
    fn step_locked(
        guard: &mut std::sync::MutexGuard<'_, ID>,
        now: ID::Ty,
        rand: ID::Ty,
        Ghost(time): Ghost<T>,
        Ghost(rng): Ghost<R>,
    ) -> (r: IdGenStatus<ID>)
        requires
            call_ensures(<T as TimeSource<ID::Ty>>::current_millis, (&time,), now),
            rand.as_nat() == 0 || call_ensures(<R as RandSource<ID::Ty>>::rand, (&rng,), rand),
        ensures
            locked_mono_ulid_outcome(r, time, rng),
            r matches IdGenStatus::Ready { id } ==> id.spec_is_valid(),
    {
        let current = guard_read(guard);
        let (next, status) = next_mono_ulid_state(current, now, rand);
        guard_write(guard, next);
        status
    }

    /// A random value when the ID behind `guard` is older than `now` (the
    /// millisecond has moved on), and zero otherwise. The guard goes out of
    /// scope, releasing the lock, before the random source is called.
    fn draw_if_moved_on(&self, guard: std::sync::MutexGuard<'_, ID>, now: ID::Ty) -> (r: ID::Ty)
        ensures
            r.as_nat() == 0 || call_ensures(<R as RandSource<ID::Ty>>::rand, (&self.rng,), r),
    {
        let moved_on = {
            let held = guard;
            let current = guard_read(&held);
            current.timestamp().is_less(now)
        };
        if moved_on {
            let draw = <R as RandSource<ID::Ty>>::rand;
            draw(&self.rng)
        } else {
            <ID::Ty as IdScalar>::zero()
        }
    }

    /// Attempts to generate the next ID under the lock: one step of
    /// [`mono_ulid_step`] from the last ID. Fails with `LockPoisoned` when a
    /// thread panicked while holding the lock. A random value is drawn, with
    /// the lock released, only when the millisecond has moved on.
    pub fn try_next_id(&self) -> (r: Result<IdGenStatus<ID>, Error>)
        ensures
            r matches Ok(status) ==> locked_mono_ulid_outcome(
                status,
                self.spec_time(),
                self.spec_rng(),
            ) && (status matches IdGenStatus::Ready { id } ==> id.spec_is_valid()),
            r matches Err(e) ==> e is LockPoisoned,
    {
        let read_clock = <T as TimeSource<ID::Ty>>::current_millis;
        let now = read_clock(&self.time);
        let rand = match mutex_lock(&self.state) {
            Ok(guard) => self.draw_if_moved_on(guard, now),
            Err(_) => {
                return Err(Error::LockPoisoned);
            },
        };
        match mutex_lock(&self.state) {
            Ok(mut guard) => Ok(
                Self::step_locked(&mut guard, now, rand, Ghost(self.time), Ghost(self.rng)),
            ),
            Err(_) => Err(Error::LockPoisoned),
        }
    }

    /// Generates under the lock like [`Self::try_next_id`], taking over the
    /// lock even when it is poisoned: the state is a single identifier, which
    /// a panicking thread cannot leave half-written.
    pub fn next_id(&self) -> (r: IdGenStatus<ID>)
        ensures
            locked_mono_ulid_outcome(r, self.spec_time(), self.spec_rng()),
            r matches IdGenStatus::Ready { id } ==> id.spec_is_valid(),
    {
        let read_clock = <T as TimeSource<ID::Ty>>::current_millis;
        let now = read_clock(&self.time);
        let first = match mutex_lock(&self.state) {
            Ok(guard) => guard,
            Err(e) => poison_into_guard(e),
        };
        let rand = self.draw_if_moved_on(first, now);
        let mut guard = match mutex_lock(&self.state) {
            Ok(guard) => guard,
            Err(e) => poison_into_guard(e),
        };
        Self::step_locked(&mut guard, now, rand, Ghost(self.time), Ghost(self.rng))
    }
}

impl<ID, T, R> UlidGenerator<ID, T, R> for LockMonoUlidGenerator<ID, T, R> where
    ID: UlidId,
    T: TimeSource<ID::Ty>,
    R: RandSource<ID::Ty>,
 {
    type Err = Error;

    /// The generator itself is unchanged (its state lives behind the lock),
    /// and the answer is a step from the state behind the lock, or
    /// `LockPoisoned`.
    open spec fn spec_try_next(before: Self, after: Self, r: Result<IdGenStatus<ID>, Error>) -> bool {
        &&& after == before
        &&& r matches Ok(status) ==> locked_mono_ulid_outcome(
            status,
            before.spec_time(),
            before.spec_rng(),
        )
        &&& r matches Err(e) ==> e is LockPoisoned
    }

    fn new(time: T, rng: R) -> (r: Self)
        ensures
            r.spec_time() == time,
            r.spec_rng() == rng,
            r.spec_start().spec_is_valid(),
            r.spec_start().spec_timestamp() == 0,
            r.spec_start().spec_random() == 0,
    {
        LockMonoUlidGenerator::new(time, rng)
    }

    fn next_id(&mut self) -> (r: IdGenStatus<ID>)
        ensures
            locked_mono_ulid_outcome(r, old(self).spec_time(), old(self).spec_rng()),
    {
        LockMonoUlidGenerator::next_id(self)
    }

    fn try_next_id(&mut self) -> (r: Result<IdGenStatus<ID>, Error>)
        ensures
            r matches Ok(status) ==> locked_mono_ulid_outcome(
                status,
                old(self).spec_time(),
                old(self).spec_rng(),
            ),
            r matches Err(e) ==> e is LockPoisoned,
    {
        LockMonoUlidGenerator::try_next_id(self)
    }
}

/// However many times a locking Snowflake generator is asked for an ID
/// (`gens[i]` answering `results[i]` and becoming `gens[i + 1]`), every ID it
/// hands out carries the machine ID of the generator's start ID.
pub proof fn lemma_lock_snowflake_run_keeps_machine<ID: SnowflakeId, T: TimeSource<ID::Ty>>(
    gens: Seq<LockSnowflakeGenerator<ID, T>>,
    results: Seq<Result<IdGenStatus<ID>, Error>>,
    k: int,
)
    requires
        gens.len() == results.len() + 1,
        forall|i: int|
            0 <= i < results.len() ==> #[trigger] <LockSnowflakeGenerator<ID, T> as SnowflakeGenerator<
                ID,
                T,
            >>::spec_try_next(gens[i], gens[i + 1], results[i]),
        0 <= k < results.len(),
    ensures
        gens[k] == gens[0],
        results[k] matches Ok(IdGenStatus::Ready { id }) ==> id.spec_machine_id()
            == gens[0].spec_start().spec_machine_id(),
    decreases k,
{
    if k > 0 {
        lemma_lock_snowflake_run_keeps_machine(gens, results, k - 1);
        let j: int = k - 1;
        assert(<LockSnowflakeGenerator<ID, T> as SnowflakeGenerator<ID, T>>::spec_try_next(
            gens[j],
            gens[j + 1],
            results[j],
        ));
    }
    assert(<LockSnowflakeGenerator<ID, T> as SnowflakeGenerator<ID, T>>::spec_try_next(
        gens[k],
        gens[k + 1],
        results[k],
    ));
}

} // verus!

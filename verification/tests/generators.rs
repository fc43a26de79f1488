use std::cell::Cell;
use std::rc::Rc;

use ferroid::{
    backoff_millis, Army, AtomicMonoUlidGenerator, AtomicSnowflakeGenerator,
    BasicMonoUlidGenerator, BasicSnowflakeGenerator, BasicUlidGenerator, Error, Id, IdGenStatus,
    LockMonoUlidGenerator, LockSnowflakeGenerator, RandSource, SnowflakeGenerator, SnowflakeId,
    SnowflakeTwitterId, TimeSource, ToU64, UlidGenerator, UlidId, ULID,
};

struct MockTime {
    millis: u64,
}

impl TimeSource<u64> for MockTime {
    fn current_millis(&self) -> u64 {
        self.millis
    }
}

impl TimeSource<u128> for MockTime {
    fn current_millis(&self) -> u128 {
        u128::from(<Self as TimeSource<u64>>::current_millis(self))
    }
}

#[derive(Clone)]
struct SharedMockStepTime {
    clock: Rc<MockStepTime>,
}

impl SharedMockStepTime {
    fn new(values: Vec<u64>, index: usize) -> Self {
        Self {
            clock: Rc::new(MockStepTime {
                values,
                index: Cell::new(index),
            }),
        }
    }
}

impl TimeSource<u64> for SharedMockStepTime {
    fn current_millis(&self) -> u64 {
        self.clock.values[self.clock.index.get()]
    }
}

impl TimeSource<u128> for SharedMockStepTime {
    fn current_millis(&self) -> u128 {
        u128::from(self.clock.values[self.clock.index.get()])
    }
}

struct MockStepTime {
    values: Vec<u64>,
    index: Cell<usize>,
}

struct FixedTime;

impl TimeSource<u64> for FixedTime {
    fn current_millis(&self) -> u64 {
        0
    }
}

impl TimeSource<u128> for FixedTime {
    fn current_millis(&self) -> u128 {
        0
    }
}

struct MockRng {
    value: u128,
}

impl RandSource<u128> for MockRng {
    fn rand(&self) -> u128 {
        self.value
    }
}

struct CounterRng {
    counter: Cell<u128>,
}

impl CounterRng {
    fn new() -> Self {
        Self {
            counter: Cell::new(0),
        }
    }
}

impl RandSource<u128> for CounterRng {
    fn rand(&self) -> u128 {
        let curr = self.counter.get();
        self.counter.set(curr + 1);
        curr
    }
}

struct MinRand;

impl RandSource<u128> for MinRand {
    fn rand(&self) -> u128 {
        0
    }
}

struct MaxRand;

impl RandSource<u128> for MaxRand {
    fn rand(&self) -> u128 {
        u128::MAX
    }
}

trait IdGenStatusExt<T: Id> {
    fn unwrap_ready(self) -> T;
    fn unwrap_pending(self) -> T::Ty;
}

impl<T: Id + core::fmt::Debug> IdGenStatusExt<T> for IdGenStatus<T>
where
    T::Ty: core::fmt::Debug,
{
    fn unwrap_ready(self) -> T {
        match self {
            IdGenStatus::Ready { id } => id,
            IdGenStatus::Pending { yield_for } => {
                panic!("unexpected pending (yield for: {yield_for:?})")
            }
        }
    }

    fn unwrap_pending(self) -> T::Ty {
        match self {
            IdGenStatus::Ready { id } => panic!("unexpected ready ({id:?})"),
            IdGenStatus::Pending { yield_for } => yield_for,
        }
    }
}

fn run_id_sequence_increments_within_same_tick<G, ID, T>(generator: &mut G)
where
    G: SnowflakeGenerator<ID, T>,
    ID: SnowflakeId + core::fmt::Debug + PartialOrd,
    ID::Ty: core::fmt::Debug,
    T: TimeSource<ID::Ty>,
{
    let id1 = generator.next_id().unwrap_ready();
    let id2 = generator.next_id().unwrap_ready();
    let id3 = generator.next_id().unwrap_ready();

    assert_eq!(id1.timestamp().to_u64(), 42);
    assert_eq!(id2.timestamp().to_u64(), 42);
    assert_eq!(id3.timestamp().to_u64(), 42);
    assert_eq!(id1.sequence().to_u64(), 0);
    assert_eq!(id2.sequence().to_u64(), 1);
    assert_eq!(id3.sequence().to_u64(), 2);
    assert!(id1 < id2 && id2 < id3);
}

fn run_generator_returns_pending_when_sequence_exhausted<G, ID, T>(generator: &mut G)
where
    G: SnowflakeGenerator<ID, T>,
    ID: SnowflakeId + core::fmt::Debug,
    ID::Ty: core::fmt::Debug,
    T: TimeSource<ID::Ty>,
{
    let yield_for = generator.next_id().unwrap_pending();
    assert_eq!(yield_for.to_u64(), 1);
}

fn run_generator_handles_rollover<G, ID, T>(generator: &mut G, shared_time: &SharedMockStepTime)
where
    G: SnowflakeGenerator<ID, T>,
    ID: SnowflakeId + core::fmt::Debug,
    ID::Ty: core::fmt::Debug,
    T: TimeSource<ID::Ty>,
{
    for i in 0..=ID::max_sequence().to_u64() {
        let id = generator.next_id().unwrap_ready();
        assert_eq!(id.sequence().to_u64(), i);
        assert_eq!(id.timestamp().to_u64(), 42);
    }

    let yield_for = generator.next_id().unwrap_pending();
    assert_eq!(yield_for.to_u64(), 1);

    shared_time.clock.index.set(1);

    let id = generator.next_id().unwrap_ready();
    assert_eq!(id.timestamp().to_u64(), 43);
    assert_eq!(id.sequence().to_u64(), 0);
}

#[test]
fn tests_basic_generator_sequence_test() {
    let mock_time = MockTime { millis: 42 };
    let mut generator: BasicSnowflakeGenerator<SnowflakeTwitterId, _> =
        BasicSnowflakeGenerator::new(0, mock_time);
    run_id_sequence_increments_within_same_tick(&mut generator);
}

#[test]
fn tests_basic_generator_pending_test() {
    let mut generator: BasicSnowflakeGenerator<SnowflakeTwitterId, _> =
        BasicSnowflakeGenerator::from_components(
            0,
            0,
            SnowflakeTwitterId::max_sequence(),
            FixedTime,
        );
    run_generator_returns_pending_when_sequence_exhausted(&mut generator);
}

#[test]
fn tests_basic_generator_rollover_test() {
    let shared_time = SharedMockStepTime::new(vec![42, 43], 0);
    let mut generator: BasicSnowflakeGenerator<SnowflakeTwitterId, _> =
        BasicSnowflakeGenerator::new(1, shared_time.clone());
    run_generator_handles_rollover(&mut generator, &shared_time);
}

#[test]
fn basic_snowflake_generator_waits_for_a_clock_that_went_back() {
    let shared_time = SharedMockStepTime::new(vec![50, 45], 0);
    let mut generator: BasicSnowflakeGenerator<SnowflakeTwitterId, _> =
        BasicSnowflakeGenerator::new(3, shared_time.clone());
    let id = generator.poll_id().unwrap_ready();
    assert_eq!((id.timestamp(), id.machine_id(), id.sequence()), (50, 3, 0));
    shared_time.clock.index.set(1);
    assert_eq!(generator.poll_id().unwrap_pending(), 5);
    assert_eq!(generator.try_poll_id().unwrap().unwrap_pending(), 5);
}

fn ulid_next<G, T, R>(generator: &mut G) -> ULID
where
    G: UlidGenerator<ULID, T, R>,
    T: TimeSource<u128>,
    R: RandSource<u128>,
{
    generator.next_id().unwrap_ready()
}

#[test]
fn basic_ulid_generator_timestamp_test() {
    let mock_time = MockTime { millis: 1234567890 };
    let mock_rng = MockRng { value: 42 };
    let mut generator: BasicUlidGenerator<ULID, _, _> = BasicUlidGenerator::new(mock_time, mock_rng);

    let id1 = ulid_next(&mut generator);
    let id2 = ulid_next(&mut generator);
    let id3 = ulid_next(&mut generator);

    assert_eq!(id1.timestamp(), 1234567890);
    assert_eq!(id2.timestamp(), 1234567890);
    assert_eq!(id3.timestamp(), 1234567890);
}

#[test]
fn basic_ulid_generator_random_component_test() {
    let mock_time = MockTime { millis: 42 };
    let counter_rng = CounterRng::new();
    let mut generator: BasicUlidGenerator<ULID, _, _> =
        BasicUlidGenerator::new(mock_time, counter_rng);

    let id1 = ulid_next(&mut generator);
    let id2 = ulid_next(&mut generator);
    let id3 = ulid_next(&mut generator);

    assert_ne!(id1.random(), id2.random());
    assert_ne!(id2.random(), id3.random());
    assert_ne!(id1.random(), id3.random());

    assert_eq!(id1.timestamp(), id2.timestamp());
    assert_eq!(id2.timestamp(), id3.timestamp());
}

#[test]
fn basic_ulid_generator_try_next_id_test() {
    let mock_time = MockTime { millis: 42 };
    let mock_rng = MockRng { value: 123 };
    let mut generator: BasicUlidGenerator<ULID, _, _> = BasicUlidGenerator::new(mock_time, mock_rng);

    for _ in 0..1000 {
        let result = UlidGenerator::try_next_id(&mut generator);
        assert!(
            result.is_ok(),
            "try_next_id should never fail for Ulid generators"
        );
    }
}

#[test]
fn basic_ulid_generator_components_test() {
    let mock_time = MockTime {
        millis: 0x123456789ABC,
    };
    let mock_rng = MockRng {
        value: 0xDEF012345678,
    };
    let mut generator: BasicUlidGenerator<ULID, _, _> = BasicUlidGenerator::new(mock_time, mock_rng);

    let id = ulid_next(&mut generator);

    assert_eq!(id.timestamp(), 0x123456789ABC);
    assert_eq!(id.random(), 0xDEF012345678);

    let reconstructed = ULID::from_components(id.timestamp(), id.random());
    assert_eq!(id, reconstructed);
}

#[test]
fn basic_ulid_generator_deterministic_test() {
    let mock_time1 = MockTime { millis: 42 };
    let mock_rng1 = CounterRng::new();
    let mut generator1: BasicUlidGenerator<ULID, _, _> =
        BasicUlidGenerator::new(mock_time1, mock_rng1);

    let mock_time2 = MockTime { millis: 42 };
    let mock_rng2 = CounterRng::new();
    let mut generator2: BasicUlidGenerator<ULID, _, _> =
        BasicUlidGenerator::new(mock_time2, mock_rng2);

    for _ in 0..10 {
        let id1 = ulid_next(&mut generator1);
        let id2 = ulid_next(&mut generator2);
        assert_eq!(
            id1, id2,
            "Generators with identical inputs should produce identical outputs"
        );
    }
}

#[test]
fn basic_generator() {
    let mock_time = MockTime { millis: 42 };
    let mock_rand = MockRng { value: 43 };
    let mut generator: BasicUlidGenerator<ULID, _, _> = BasicUlidGenerator::new(mock_time, mock_rand);
    let id = generator.next_id().unwrap_ready();
    assert_eq!(id.timestamp(), 42);
    assert_eq!(id.random(), 43);
}

fn run_mono_sequence_increments_within_same_tick<G, T, R>(generator: &mut G)
where
    G: UlidGenerator<ULID, T, R>,
    T: TimeSource<u128>,
    R: RandSource<u128>,
{
    let id1 = generator.try_next_id().ok().unwrap().unwrap_ready();
    let id2 = generator.try_next_id().ok().unwrap().unwrap_ready();
    let id3 = generator.try_next_id().ok().unwrap().unwrap_ready();

    assert_eq!(id1.timestamp().to_u64(), 42);
    assert_eq!(id2.timestamp().to_u64(), 42);
    assert_eq!(id3.timestamp().to_u64(), 42);
    assert_eq!(id1.random().to_u64(), 42);
    assert_eq!(id2.random().to_u64(), 42 + 1);
    assert_eq!(id3.random().to_u64(), 42 + 2);
    assert!(id1 < id2 && id2 < id3);
}

#[test]
fn basic_generator_mono_sequence_test() {
    let mock_time = MockTime { millis: 42 };
    let mock_rand = MockRng { value: 42 };
    let mut generator: BasicMonoUlidGenerator<ULID, _, _> =
        BasicMonoUlidGenerator::new(mock_time, mock_rand);
    run_mono_sequence_increments_within_same_tick(&mut generator);
}

#[test]
fn basic_generator_mono_pending_test() {
    let mut generator: BasicMonoUlidGenerator<ULID, _, _> =
        BasicMonoUlidGenerator::from_components(0, ULID::max_random(), FixedTime, MinRand);
    let yield_for = generator.try_next_id().ok().unwrap().unwrap_pending();
    assert_eq!(yield_for, 1);
}

#[test]
fn basic_generator_mono_rollover_test() {
    let shared_time = SharedMockStepTime::new(vec![42, 43], 0);
    let mut generator: BasicMonoUlidGenerator<ULID, _, _> =
        BasicMonoUlidGenerator::new(shared_time.clone(), MaxRand);

    let id = generator.try_next_id().ok().unwrap().unwrap_ready();
    assert_eq!(id.timestamp().to_u64(), 42);

    let yield_for = generator.try_next_id().ok().unwrap().unwrap_pending();
    assert_eq!(yield_for, 1);

    shared_time.clock.index.set(1);

    let id = generator.try_next_id().ok().unwrap().unwrap_ready();
    assert_eq!(id.timestamp().to_u64(), 43);
}

#[test]
fn mono_ulid_generator_waits_for_a_clock_that_went_back() {
    let shared_time = SharedMockStepTime::new(vec![50, 45], 0);
    let mut generator: BasicMonoUlidGenerator<ULID, _, _> =
        BasicMonoUlidGenerator::new(shared_time.clone(), MinRand);
    let id = generator.next_id().unwrap_ready();
    assert_eq!((id.timestamp(), id.random()), (50, 0));
    shared_time.clock.index.set(1);
    assert_eq!(generator.next_id().unwrap_pending(), 5);
}

#[test]
fn backoff_scales_and_saturates() {
    assert_eq!(backoff_millis(3u64, 8), 24);
    assert_eq!(backoff_millis(0u128, 8), 0);
    assert_eq!(backoff_millis(u128::MAX, 1), u64::MAX);
    assert_eq!(backoff_millis(u64::MAX, 2), u64::MAX);
}

#[test]
fn tests_lock_generator_sequence_test() {
    let mock_time = MockTime { millis: 42 };
    let mut generator: LockSnowflakeGenerator<SnowflakeTwitterId, _> =
        LockSnowflakeGenerator::new(0, mock_time);
    run_id_sequence_increments_within_same_tick(&mut generator);
}

#[test]
fn tests_atomic_generator_sequence_test() {
    let mock_time = MockTime { millis: 42 };
    let mut generator: AtomicSnowflakeGenerator<SnowflakeTwitterId, _> =
        AtomicSnowflakeGenerator::new(0, mock_time);
    run_id_sequence_increments_within_same_tick(&mut generator);
}

#[test]
fn tests_lock_generator_pending_test() {
    let mut generator: LockSnowflakeGenerator<SnowflakeTwitterId, _> =
        LockSnowflakeGenerator::from_components(
            0,
            0,
            SnowflakeTwitterId::max_sequence(),
            FixedTime,
        );
    run_generator_returns_pending_when_sequence_exhausted(&mut generator);
}

#[test]
fn tests_atomic_generator_pending_test() {
    let mut generator: AtomicSnowflakeGenerator<SnowflakeTwitterId, _> =
        AtomicSnowflakeGenerator::from_components(
            0,
            0,
            SnowflakeTwitterId::max_sequence(),
            FixedTime,
        );
    run_generator_returns_pending_when_sequence_exhausted(&mut generator);
}

#[test]
fn tests_lock_generator_rollover_test() {
    let shared_time = SharedMockStepTime::new(vec![42, 43], 0);
    let mut generator: LockSnowflakeGenerator<SnowflakeTwitterId, _> =
        LockSnowflakeGenerator::new(1, shared_time.clone());
    run_generator_handles_rollover(&mut generator, &shared_time);
}

#[test]
fn tests_atomic_generator_rollover_test() {
    let shared_time = SharedMockStepTime::new(vec![42, 43], 0);
    let mut generator: AtomicSnowflakeGenerator<SnowflakeTwitterId, _> =
        AtomicSnowflakeGenerator::new(1, shared_time.clone());
    run_generator_handles_rollover(&mut generator, &shared_time);
}

#[test]
fn lock_generator_mono_sequence_test() {
    let mock_time = MockTime { millis: 42 };
    let mock_rand = MockRng { value: 42 };
    let mut generator: LockMonoUlidGenerator<ULID, _, _> =
        LockMonoUlidGenerator::new(mock_time, mock_rand);
    run_mono_sequence_increments_within_same_tick(&mut generator);
}

#[test]
fn atomic_generator_mono_sequence_test() {
    let mock_time = MockTime { millis: 42 };
    let mock_rand = MockRng { value: 42 };
    let mut generator: AtomicMonoUlidGenerator<ULID, _, _> =
        AtomicMonoUlidGenerator::new(mock_time, mock_rand);
    run_mono_sequence_increments_within_same_tick(&mut generator);
}

#[test]
fn lock_generator_mono_pending_test() {
    let mut generator: LockMonoUlidGenerator<ULID, _, _> =
        LockMonoUlidGenerator::from_components(0, ULID::max_random(), FixedTime, MinRand);
    let yield_for = generator.try_next_id().ok().unwrap().unwrap_pending();
    assert_eq!(yield_for, 1);
}

#[test]
fn atomic_generator_mono_pending_test() {
    let generator: AtomicMonoUlidGenerator<ULID, _, _> =
        AtomicMonoUlidGenerator::from_components(0, ULID::max_random(), FixedTime, MinRand);
    let yield_for = generator.try_poll_id().ok().unwrap().unwrap_pending();
    assert_eq!(yield_for, 1);
}

#[test]
fn lock_generator_mono_rollover_test() {
    let shared_time = SharedMockStepTime::new(vec![42, 43], 0);
    let generator: LockMonoUlidGenerator<ULID, _, _> =
        LockMonoUlidGenerator::new(shared_time.clone(), MaxRand);

    let id = generator.try_next_id().ok().unwrap().unwrap_ready();
    assert_eq!(id.timestamp().to_u64(), 42);
    let yield_for = generator.try_next_id().ok().unwrap().unwrap_pending();
    assert_eq!(yield_for, 1);
    shared_time.clock.index.set(1);
    let id = generator.try_next_id().ok().unwrap().unwrap_ready();
    assert_eq!(id.timestamp().to_u64(), 43);
}

#[test]
fn atomic_generator_mono_rollover_test() {
    let shared_time = SharedMockStepTime::new(vec![42, 43], 0);
    let generator: AtomicMonoUlidGenerator<ULID, _, _> =
        AtomicMonoUlidGenerator::new(shared_time.clone(), MaxRand);

    let id = generator.poll_id().unwrap_ready();
    assert_eq!(id.timestamp().to_u64(), 42);
    let yield_for = generator.poll_id().unwrap_pending();
    assert_eq!(yield_for, 1);
    shared_time.clock.index.set(1);
    let id = generator.poll_id().unwrap_ready();
    assert_eq!(id.timestamp().to_u64(), 43);
}

#[test]
fn lock_generator_try_next_id_succeeds_on_a_healthy_lock() {
    let generator: LockSnowflakeGenerator<SnowflakeTwitterId, _> =
        LockSnowflakeGenerator::new(0, MockTime { millis: 42 });
    assert!(matches!(generator.try_next_id(), Ok(IdGenStatus::Ready { .. })));
    assert!(matches!(generator.next_id(), IdGenStatus::Ready { .. }));
    let err: Error = Error::LockPoisoned;
    assert_eq!(err, Error::LockPoisoned);
}

#[test]
fn army_takes_turns() {
    let generators = vec![
        BasicSnowflakeGenerator::<SnowflakeTwitterId, _>::new(1, MockTime { millis: 42 }),
        BasicSnowflakeGenerator::<SnowflakeTwitterId, _>::new(2, MockTime { millis: 42 }),
        BasicSnowflakeGenerator::<SnowflakeTwitterId, _>::new(3, MockTime { millis: 42 }),
    ];
    let mut army = Army::new(generators);
    let mut machines = Vec::new();
    for _ in 0..6 {
        match army.try_poll_id() {
            Ok(IdGenStatus::Ready { id }) => machines.push(id.machine_id()),
            _ => panic!("expected an ID"),
        }
    }
    assert_eq!(machines, vec![1, 2, 3, 1, 2, 3]);
}

#[test]
fn army_passes_the_turn_on_pending() {
    let generators = vec![
        BasicSnowflakeGenerator::<SnowflakeTwitterId, _>::from_components(
            0,
            1,
            SnowflakeTwitterId::max_sequence(),
            FixedTime,
        ),
        BasicSnowflakeGenerator::<SnowflakeTwitterId, _>::from_components(0, 2, 0, FixedTime),
    ];
    let mut army = Army::new(generators);
    assert!(matches!(army.try_poll_id(), Ok(IdGenStatus::Pending { yield_for: 1 })));
    match army.try_poll_id() {
        Ok(IdGenStatus::Ready { id }) => assert_eq!((id.machine_id(), id.sequence()), (2, 1)),
        _ => panic!("expected an ID"),
    }
}

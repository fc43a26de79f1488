use vstd::prelude::*;

use super::interface::UlidGenerator;
use super::status::IdGenStatus;
use crate::base32::{lemma_encode_id_order, lex_lt, spec_encode_id};
use crate::id::{Id, IdScalar, UlidId};
use crate::rand::RandSource;
use crate::time::TimeSource;

verus! {

/// One step of monotonic ULID generation: from the last ID handed out
/// (`old`), the current time `now` and a fresh random value `rand`, the new
/// last ID and what the caller receives.
///
/// - Same millisecond: the random part is incremented, or, when it is full,
///   the caller is told to wait one millisecond.
/// - Later millisecond: the ID moves to `now` with the random part `rand`.
/// - Earlier millisecond (the clock went back): the caller is told to wait
///   until the clock catches up.
pub open spec fn mono_ulid_step<ID: UlidId>(
    old: ID,
    now: ID::Ty,
    rand: ID::Ty,
    new: ID,
    status: IdGenStatus<ID>,
) -> bool {
    let ts = old.spec_timestamp();
    if now.as_nat() == ts {
        if old.spec_random() < ID::spec_max_random() {
            &&& new.spec_is_valid()
            &&& new.spec_timestamp() == ts
            &&& new.spec_random() == old.spec_random() + 1
            &&& status == IdGenStatus::Ready { id: new }
        } else {
            &&& new == old
            &&& status matches IdGenStatus::Pending { yield_for } && yield_for.as_nat() == 1
        }
    } else if now.as_nat() > ts {
        &&& new.spec_is_valid()
        &&& new.spec_timestamp() == now.as_nat() % (ID::spec_max_timestamp() + 1)
        &&& new.spec_random() == rand.as_nat() % (ID::spec_max_random() + 1)
        &&& status == IdGenStatus::Ready { id: new }
    } else {
        &&& new == old
        &&& status matches IdGenStatus::Pending { yield_for } && yield_for.as_nat() == ts
            - now.as_nat()
    }
}

/// The pending status when the clock reads `now`, behind the last timestamp
/// `current_ts`: wait for the difference.
fn cold_clock_behind<ID: UlidId>(now: ID::Ty, current_ts: ID::Ty) -> (r: IdGenStatus<ID>)
    requires
        now.as_nat() < current_ts.as_nat(),
    ensures
        r matches IdGenStatus::Pending { yield_for } && yield_for.as_nat() == current_ts.as_nat()
            - now.as_nat(),
{
    IdGenStatus::Pending { yield_for: current_ts.minus(now) }
}

/// Computes one step of monotonic ULID generation (see [`mono_ulid_step`]).
pub fn next_mono_ulid_state<ID: UlidId>(state: ID, now: ID::Ty, rand: ID::Ty) -> (r: (
    ID,
    IdGenStatus<ID>,
))
    ensures
        mono_ulid_step(state, now, rand, r.0, r.1),
{
    let current_ts = state.timestamp();
    if now.is_same(current_ts) {
        if state.has_random_room() {
            let updated = state.increment_random();
            proof {
                vstd::arithmetic::div_mod::lemma_small_mod(
                    (state.spec_random() + 1) as nat,
                    ID::spec_max_random() + 1,
                );
            }
            (updated, IdGenStatus::Ready { id: updated })
        } else {
            (state, IdGenStatus::Pending { yield_for: <ID::Ty as IdScalar>::one() })
        }
    } else if current_ts.is_less(now) {
        let updated = state.rollover_to_timestamp(now, rand);
        (updated, IdGenStatus::Ready { id: updated })
    } else {
        (state, cold_clock_behind(now, current_ts))
    }
}

/// IDs from one monotonic ULID generator strictly increase: a step from a
/// valid last ID, with the clock at most the layout's largest timestamp,
/// hands out a valid ID greater than the last one; a pending step changes
/// nothing.
pub proof fn lemma_mono_ulid_step_increases<ID: UlidId>(
    old: ID,
    now: ID::Ty,
    rand: ID::Ty,
    new: ID,
    status: IdGenStatus<ID>,
)
    requires
        old.spec_is_valid(),
        now.as_nat() <= ID::spec_max_timestamp(),
        mono_ulid_step(old, now, rand, new, status),
    ensures
        new.spec_is_valid(),
        status is Pending ==> new == old,
        status matches IdGenStatus::Ready { id } ==> id == new && old.spec_raw().as_nat()
            < new.spec_raw().as_nat(),
{
    old.lemma_layout();
    new.lemma_layout();
    let r1 = ID::spec_max_random() + 1;
    if now.as_nat() > old.spec_timestamp() {
        vstd::arithmetic::div_mod::lemma_small_mod(now.as_nat(), ID::spec_max_timestamp() + 1);
        let t0 = old.spec_timestamp();
        let t1 = new.spec_timestamp();
        assert(t1 * r1 >= (t0 + 1) * r1) by (nonlinear_arith)
            requires
                t1 >= t0 + 1,
                r1 >= 1,
        ;
        assert((t0 + 1) * r1 == t0 * r1 + r1) by (nonlinear_arith);
    }
}

/// A run of monotonic ULID generation steps: `states[i + 1]` is the last ID
/// after the step that read the clock at `nows[i]`, could draw `rands[i]`,
/// and answered `statuses[i]`.
pub open spec fn mono_ulid_run<ID: UlidId>(
    states: Seq<ID>,
    nows: Seq<ID::Ty>,
    rands: Seq<ID::Ty>,
    statuses: Seq<IdGenStatus<ID>>,
) -> bool {
    &&& states.len() == nows.len() + 1
    &&& rands.len() == nows.len()
    &&& statuses.len() == nows.len()
    &&& forall|i: int|
        0 <= i < nows.len() ==> #[trigger] mono_ulid_step(
            states[i],
            nows[i],
            rands[i],
            states[i + 1],
            statuses[i],
        )
}

/// Along a run, every state is valid and no state is below an earlier one.
proof fn lemma_mono_ulid_run_states<ID: UlidId>(
    states: Seq<ID>,
    nows: Seq<ID::Ty>,
    rands: Seq<ID::Ty>,
    statuses: Seq<IdGenStatus<ID>>,
    i: int,
    j: int,
)
    requires
        mono_ulid_run(states, nows, rands, statuses),
        states[0].spec_is_valid(),
        forall|k: int| 0 <= k < nows.len() ==> (#[trigger] nows[k]).as_nat() <= ID::spec_max_timestamp(),
        0 <= i <= j < states.len(),
    ensures
        states[j].spec_is_valid(),
        states[i].spec_raw().as_nat() <= states[j].spec_raw().as_nat(),
    decreases j,
{
    if j > 0 {
        if i < j {
            lemma_mono_ulid_run_states(states, nows, rands, statuses, i, j - 1);
        } else {
            lemma_mono_ulid_run_states(states, nows, rands, statuses, 0, j - 1);
        }
        let k = j - 1;
        assert(mono_ulid_step(states[k], nows[k], rands[k], states[k + 1], statuses[k]));
        assert(k + 1 == j);
        lemma_mono_ulid_step_increases(states[k], nows[k], rands[k], states[k + 1], statuses[k]);
    }
}

/// The IDs a monotonic ULID generator hands out over any run strictly
/// increase: from a valid start, with the clock never past the layout's
/// largest timestamp, an ID handed out later is greater than one handed out
/// earlier.
pub proof fn lemma_mono_ulid_run_increases<ID: UlidId>(
    states: Seq<ID>,
    nows: Seq<ID::Ty>,
    rands: Seq<ID::Ty>,
    statuses: Seq<IdGenStatus<ID>>,
    i: int,
    j: int,
)
    requires
        mono_ulid_run(states, nows, rands, statuses),
        states[0].spec_is_valid(),
        forall|k: int| 0 <= k < nows.len() ==> (#[trigger] nows[k]).as_nat() <= ID::spec_max_timestamp(),
        0 <= i < j < statuses.len(),
        statuses[i] is Ready,
        statuses[j] is Ready,
    ensures
        statuses[i]->id.spec_raw().as_nat() < statuses[j]->id.spec_raw().as_nat(),
{
    lemma_mono_ulid_run_states(states, nows, rands, statuses, 0, i);
    lemma_mono_ulid_run_states(states, nows, rands, statuses, 0, j);
    lemma_mono_ulid_run_states(states, nows, rands, statuses, i + 1, j);
    assert(mono_ulid_step(states[i], nows[i], rands[i], states[i + 1], statuses[i]));
    assert(mono_ulid_step(states[j], nows[j], rands[j], states[j + 1], statuses[j]));
    lemma_mono_ulid_step_increases(states[i], nows[i], rands[i], states[i + 1], statuses[i]);
    lemma_mono_ulid_step_increases(states[j], nows[j], rands[j], states[j + 1], statuses[j]);
}

/// The Crockford Base32 strings of the IDs one monotonic ULID generator
/// hands out sort, as text, in the order the IDs were handed out.
pub proof fn lemma_mono_ulid_step_sorts_as_text<ID: UlidId>(
    old: ID,
    now: ID::Ty,
    rand: ID::Ty,
    new: ID,
    status: IdGenStatus<ID>,
)
    requires
        old.spec_is_valid(),
        now.as_nat() <= ID::spec_max_timestamp(),
        mono_ulid_step(old, now, rand, new, status),
        status is Ready,
    ensures
        lex_lt(spec_encode_id(old), spec_encode_id(new)),
{
    lemma_mono_ulid_step_increases(old, now, rand, new, status);
    old.spec_raw().lemma_value_is_nat();
    new.spec_raw().lemma_value_is_nat();
    lemma_encode_id_order(old, new);
}

/// A non-monotonic ULID generator: every ID is the current time with a fresh
/// random part.
pub struct BasicUlidGenerator<ID, T, R> where
    ID: UlidId,
    T: TimeSource<ID::Ty>,
    R: RandSource<ID::Ty>,
 {
    time: T,
    rng: R,
    reading: Ghost<ID::Ty>,
    drawn: Ghost<ID::Ty>,
    _id: core::marker::PhantomData<ID>,
}

impl<ID, T, R> BasicUlidGenerator<ID, T, R> where
    ID: UlidId,
    T: TimeSource<ID::Ty>,
    R: RandSource<ID::Ty>,
 {
    /// The clock this generator reads.
    pub closed spec fn spec_time(&self) -> T {
        self.time
    }

    /// The random source this generator draws from.
    pub closed spec fn spec_rng(&self) -> R {
        self.rng
    }

    /// The clock reading taken by the latest generation (unspecified before
    /// the first).
    pub closed spec fn spec_last_reading(&self) -> ID::Ty {
        self.reading@
    }

    /// The random value drawn by the latest generation (unspecified before
    /// the first).
    pub closed spec fn spec_last_rand(&self) -> ID::Ty {
        self.drawn@
    }

    /// Creates a generator reading the time from `time` and random values
    /// from `rng`.
    pub fn new(time: T, rng: R) -> (r: Self)
        ensures
            r.spec_time() == time,
            r.spec_rng() == rng,
    {
        BasicUlidGenerator {
            time,
            rng,
            reading: Ghost(vstd::pervasive::arbitrary()),
            drawn: Ghost(vstd::pervasive::arbitrary()),
            _id: core::marker::PhantomData,
        }
    }

    /// Generates a new ULID from the current time and a fresh random value;
    /// it is always ready.
    pub fn next_id(&mut self) -> (r: IdGenStatus<ID>)
        ensures
            basic_ulid_gen(*old(self), *final(self), r),
    {
        self.gen_id()
    }

    /// [`Self::next_id`] in the fallible form; it never fails.
    pub fn try_next_id(&mut self) -> (r: Result<IdGenStatus<ID>, core::convert::Infallible>)
        ensures
            r matches Ok(status) && basic_ulid_gen(*old(self), *final(self), status),
    {
        self.try_gen_id()
    }

    /// Generates a new ULID from the current time and a fresh random value;
    /// it is always ready.
    pub fn gen_id(&mut self) -> (r: IdGenStatus<ID>)
        ensures
            basic_ulid_gen(*old(self), *final(self), r),
    {
        match self.try_gen_id() {
            Ok(status) => status,
            Err(_) => vstd::pervasive::unreached(),
        }
    }

    /// [`Self::gen_id`] in the fallible form; it never fails.
    pub fn try_gen_id(&mut self) -> (r: Result<IdGenStatus<ID>, core::convert::Infallible>)
        ensures
            r matches Ok(status) && basic_ulid_gen(*old(self), *final(self), status),
    {
        let read_clock = <T as TimeSource<ID::Ty>>::current_millis;
        let draw = <R as RandSource<ID::Ty>>::rand;
        let now = read_clock(&self.time);
        let rand = draw(&self.rng);
        let id = ID::from_components(now, rand);
        self.reading = Ghost(now);
        self.drawn = Ghost(rand);
        Ok(IdGenStatus::Ready { id })
    }
}

/// One generation of a non-monotonic ULID generator: it keeps its clock and
/// random source, reads the clock once, draws one random value, and is ready
/// with the valid ID whose timestamp and random part are those two values,
/// each truncated to its field. The recorded reading and draw are values
/// that the clock's `current_millis` and the random source's `rand` can
/// return.
pub open spec fn basic_ulid_gen<ID: UlidId, T: TimeSource<ID::Ty>, R: RandSource<ID::Ty>>(
    before: BasicUlidGenerator<ID, T, R>,
    after: BasicUlidGenerator<ID, T, R>,
    r: IdGenStatus<ID>,
) -> bool {
    &&& after.spec_time() == before.spec_time()
    &&& after.spec_rng() == before.spec_rng()
    &&& call_ensures(
        <T as TimeSource<ID::Ty>>::current_millis,
        (&before.spec_time(),),
        after.spec_last_reading(),
    )
    &&& call_ensures(<R as RandSource<ID::Ty>>::rand, (&before.spec_rng(),), after.spec_last_rand())
    &&& r matches IdGenStatus::Ready { id } && id.spec_is_valid() && id.spec_timestamp()
        == after.spec_last_reading().as_nat() % (ID::spec_max_timestamp() + 1) && id.spec_random()
        == after.spec_last_rand().as_nat() % (ID::spec_max_random() + 1)
}

/// A non-monotonic ULID generator builds its ID from what its clock and
/// random source return: where the clock can only return `t` and the random
/// source only `v`, the ID handed out has timestamp `t` and random part `v`,
/// each truncated to its field.
pub proof fn lemma_basic_ulid_gen_uses_sources<ID: UlidId, T: TimeSource<ID::Ty>, R: RandSource<ID::Ty>>(
    before: BasicUlidGenerator<ID, T, R>,
    after: BasicUlidGenerator<ID, T, R>,
    r: IdGenStatus<ID>,
    t: ID::Ty,
    v: ID::Ty,
)
    requires
        basic_ulid_gen(before, after, r),
        forall|x: ID::Ty|
            #[trigger] call_ensures(<T as TimeSource<ID::Ty>>::current_millis, (&before.spec_time(),), x)
                ==> x == t,
        forall|x: ID::Ty|
            #[trigger] call_ensures(<R as RandSource<ID::Ty>>::rand, (&before.spec_rng(),), x) ==> x
                == v,
    ensures
        r matches IdGenStatus::Ready { id } && id.spec_is_valid() && id.spec_timestamp()
            == t.as_nat() % (ID::spec_max_timestamp() + 1) && id.spec_random() == v.as_nat() % (
        ID::spec_max_random() + 1),
{
}

/// A non-monotonic ULID generator's output depends only on what its clock
/// and random source returned: two generations that read the same time and
/// drew the same value give the same ID.
pub proof fn lemma_basic_ulid_gen_deterministic<ID: UlidId, T: TimeSource<ID::Ty>, R: RandSource<ID::Ty>>(
    before1: BasicUlidGenerator<ID, T, R>,
    after1: BasicUlidGenerator<ID, T, R>,
    r1: IdGenStatus<ID>,
    before2: BasicUlidGenerator<ID, T, R>,
    after2: BasicUlidGenerator<ID, T, R>,
    r2: IdGenStatus<ID>,
)
    requires
        basic_ulid_gen(before1, after1, r1),
        basic_ulid_gen(before2, after2, r2),
        after1.spec_last_reading() == after2.spec_last_reading(),
        after1.spec_last_rand() == after2.spec_last_rand(),
    ensures
        r1 == r2,
{
    let a = r1->id;
    let b = r2->id;
    a.lemma_layout();
    b.lemma_layout();
    a.spec_raw().lemma_injective(b.spec_raw());
    ID::lemma_raw_injective(a, b);
}

impl<ID, T, R> UlidGenerator<ID, T, R> for BasicUlidGenerator<ID, T, R> where
    ID: UlidId,
    T: TimeSource<ID::Ty>,
    R: RandSource<ID::Ty>,
 {
    type Err = core::convert::Infallible;

    /// One generation of [`basic_ulid_gen`]; it never fails.
    open spec fn spec_try_next(before: Self, after: Self, r: Result<IdGenStatus<ID>, core::convert::Infallible>) -> bool {
        r matches Ok(status) && basic_ulid_gen(before, after, status)
    }

    fn new(time: T, rng: R) -> (r: Self)
        ensures
            r.spec_time() == time,
            r.spec_rng() == rng,
    {
        BasicUlidGenerator::new(time, rng)
    }

    fn next_id(&mut self) -> (r: IdGenStatus<ID>)
        ensures
            basic_ulid_gen(*old(self), *final(self), r),
    {
        self.gen_id()
    }

    fn try_next_id(&mut self) -> (r: Result<IdGenStatus<ID>, core::convert::Infallible>) {
        Ok(self.gen_id())
    }
}

/// A single-threaded monotonic ULID generator: within one millisecond the
/// random part counts up.
///
/// Not thread-safe: it takes `&mut self` to generate.
pub struct BasicMonoUlidGenerator<ID, T, R> where
    ID: UlidId,
    T: TimeSource<ID::Ty>,
    R: RandSource<ID::Ty>,
 {
    state: ID,
    time: T,
    rng: R,
    reading: Ghost<ID::Ty>,
    drawn: Ghost<ID::Ty>,
    drew: Ghost<bool>,
}

impl<ID, T, R> View for BasicMonoUlidGenerator<ID, T, R> where
    ID: UlidId,
    T: TimeSource<ID::Ty>,
    R: RandSource<ID::Ty>,
 {
    type V = ID;

    /// The last ID handed out (or the starting point).
    closed spec fn view(&self) -> ID {
        self.state
    }
}

impl<ID, T, R> BasicMonoUlidGenerator<ID, T, R> where
    ID: UlidId,
    T: TimeSource<ID::Ty>,
    R: RandSource<ID::Ty>,
 {
    /// The clock this generator reads.
    pub closed spec fn spec_time(&self) -> T {
        self.time
    }

    /// The random source this generator draws from.
    pub closed spec fn spec_rng(&self) -> R {
        self.rng
    }

    /// The clock reading taken by the latest generation attempt (unspecified
    /// before the first).
    pub closed spec fn spec_last_reading(&self) -> ID::Ty {
        self.reading@
    }

    /// The random value the latest generation attempt drew, or zero when it
    /// drew none (unspecified before the first attempt).
    pub closed spec fn spec_last_rand(&self) -> ID::Ty {
        self.drawn@
    }

    /// Whether the latest generation attempt called the random source
    /// (false before the first attempt).
    pub closed spec fn spec_drew(&self) -> bool {
        self.drew@
    }

    /// Creates a generator whose state starts at timestamp and random part
    /// zero.
    pub fn new(time: T, rng: R) -> (r: Self)
        ensures
            r.spec_time() == time,
            r.spec_rng() == rng,
            r@.spec_is_valid(),
            r@.spec_timestamp() == 0,
            r@.spec_random() == 0,
    {
        Self::from_components(<ID::Ty as IdScalar>::zero(), <ID::Ty as IdScalar>::zero(), time, rng)
    }

    /// Creates a generator whose state starts at the given components, each
    /// truncated to the width of its field.
    pub fn from_components(timestamp: ID::Ty, random: ID::Ty, time: T, rng: R) -> (r: Self)
        ensures
            r.spec_time() == time,
            r.spec_rng() == rng,
            r@.spec_is_valid(),
            r@.spec_timestamp() == timestamp.as_nat() % (ID::spec_max_timestamp() + 1),
            r@.spec_random() == random.as_nat() % (ID::spec_max_random() + 1),
    {
        let id = ID::from_components(timestamp, random);
        BasicMonoUlidGenerator {
            state: id,
            time,
            rng,
            reading: Ghost(timestamp),
            drawn: Ghost(random),
            drew: Ghost(false),
        }
    }

    /// Attempts to generate the next ID: one step of [`mono_ulid_step`] from
    /// the last ID at the time `time` reports; a random value is drawn only
    /// when the millisecond has moved on.
    pub fn next_id(&mut self) -> (r: IdGenStatus<ID>)
        ensures
            basic_mono_ulid_poll(*old(self), *final(self), r),
    {
        match self.try_next_id() {
            Ok(status) => status,
            Err(_) => vstd::pervasive::unreached(),
        }
    }

    /// [`Self::next_id`] in the fallible form; it never fails.
    pub fn try_next_id(&mut self) -> (r: Result<IdGenStatus<ID>, core::convert::Infallible>)
        ensures
            r matches Ok(status) && basic_mono_ulid_poll(*old(self), *final(self), status),
    {
        let read_clock = <T as TimeSource<ID::Ty>>::current_millis;
        let draw = <R as RandSource<ID::Ty>>::rand;
        let now = read_clock(&self.time);
        let current_ts = self.state.timestamp();
        let moved_on = current_ts.is_less(now);
        let rand = if moved_on {
            draw(&self.rng)
        } else {
            <ID::Ty as IdScalar>::zero()
        };
        let (next, status) = next_mono_ulid_state(self.state, now, rand);
        self.state = next;
        self.reading = Ghost(now);
        self.drawn = Ghost(rand);
        self.drew = Ghost(moved_on);
        Ok(status)
    }
}

/// One generation attempt of a basic monotonic ULID generator: it keeps its
/// clock and random source, reads the clock, calls the random source exactly
/// when the reading is past its last timestamp (zero stands in otherwise),
/// and takes one [`mono_ulid_step`] from its last ID at that reading with
/// that value. The recorded reading is a value the clock's `current_millis`
/// can return, and a recorded draw one the random source's `rand` can
/// return.
pub open spec fn basic_mono_ulid_poll<ID: UlidId, T: TimeSource<ID::Ty>, R: RandSource<ID::Ty>>(
    before: BasicMonoUlidGenerator<ID, T, R>,
    after: BasicMonoUlidGenerator<ID, T, R>,
    r: IdGenStatus<ID>,
) -> bool {
    &&& after.spec_time() == before.spec_time()
    &&& after.spec_rng() == before.spec_rng()
    &&& call_ensures(
        <T as TimeSource<ID::Ty>>::current_millis,
        (&before.spec_time(),),
        after.spec_last_reading(),
    )
    &&& after.spec_drew() <==> before@.spec_timestamp() < after.spec_last_reading().as_nat()
    &&& after.spec_drew() ==> call_ensures(
        <R as RandSource<ID::Ty>>::rand,
        (&before.spec_rng(),),
        after.spec_last_rand(),
    )
    &&& !after.spec_drew() ==> after.spec_last_rand().as_nat() == 0
    &&& mono_ulid_step(before@, after.spec_last_reading(), after.spec_last_rand(), after@, r)
}

/// Over any run of generation attempts on one basic monotonic ULID
/// generator, from a valid state and with every clock reading at most the
/// layout's largest timestamp, the IDs handed out strictly increase: an ID
/// handed out later is greater than one handed out earlier, so none is
/// handed out twice.
pub proof fn lemma_basic_mono_ulid_polls_increase<
    ID: UlidId,
    T: TimeSource<ID::Ty>,
    R: RandSource<ID::Ty>,
>(gens: Seq<BasicMonoUlidGenerator<ID, T, R>>, statuses: Seq<IdGenStatus<ID>>, i: int, j: int)
    requires
        gens.len() == statuses.len() + 1,
        forall|k: int|
            0 <= k < statuses.len() ==> #[trigger] basic_mono_ulid_poll(
                gens[k],
                gens[k + 1],
                statuses[k],
            ),
        gens[0]@.spec_is_valid(),
        forall|k: int|
            0 < k < gens.len() ==> (#[trigger] gens[k].spec_last_reading()).as_nat()
                <= ID::spec_max_timestamp(),
        0 <= i < j < statuses.len(),
        statuses[i] is Ready,
        statuses[j] is Ready,
    ensures
        statuses[i]->id.spec_raw().as_nat() < statuses[j]->id.spec_raw().as_nat(),
{
    let states = Seq::new(gens.len(), |k: int| gens[k]@);
    let nows = Seq::new(statuses.len(), |k: int| gens[k + 1].spec_last_reading());
    let rands = Seq::new(statuses.len(), |k: int| gens[k + 1].spec_last_rand());
    assert forall|k: int| 0 <= k < nows.len() implies #[trigger] mono_ulid_step(
        states[k],
        nows[k],
        rands[k],
        states[k + 1],
        statuses[k],
    ) by {
        assert(basic_mono_ulid_poll(gens[k], gens[k + 1], statuses[k]));
    }
    assert forall|k: int| 0 <= k < nows.len() implies (#[trigger] nows[k]).as_nat()
        <= ID::spec_max_timestamp() by {
        assert(gens[k + 1].spec_last_reading() == nows[k]);
    }
    lemma_mono_ulid_run_increases(states, nows, rands, statuses, i, j);
}

/// Two generation attempts of a basic monotonic ULID generator in one
/// millisecond: where the clock can only return `t`, later than the last
/// timestamp and within the layout, and the random source only `v`, the
/// first ID has timestamp `t` and random part `v` truncated to its field; the
/// second has the same timestamp and that random part plus one, or, when the
/// random part is already full, the second attempt asks to wait one
/// millisecond.
pub proof fn lemma_basic_mono_ulid_same_millis<
    ID: UlidId,
    T: TimeSource<ID::Ty>,
    R: RandSource<ID::Ty>,
>(
    g0: BasicMonoUlidGenerator<ID, T, R>,
    g1: BasicMonoUlidGenerator<ID, T, R>,
    g2: BasicMonoUlidGenerator<ID, T, R>,
    r1: IdGenStatus<ID>,
    r2: IdGenStatus<ID>,
    t: ID::Ty,
    v: ID::Ty,
)
    requires
        basic_mono_ulid_poll(g0, g1, r1),
        basic_mono_ulid_poll(g1, g2, r2),
        g0@.spec_timestamp() < t.as_nat() <= ID::spec_max_timestamp(),
        forall|x: ID::Ty|
            #[trigger] call_ensures(<T as TimeSource<ID::Ty>>::current_millis, (&g0.spec_time(),), x)
                ==> x == t,
        forall|x: ID::Ty|
            #[trigger] call_ensures(<R as RandSource<ID::Ty>>::rand, (&g0.spec_rng(),), x) ==> x
                == v,
    ensures
        r1 matches IdGenStatus::Ready { id } && id.spec_is_valid() && id.spec_timestamp()
            == t.as_nat() && id.spec_random() == v.as_nat() % (ID::spec_max_random() + 1),
        v.as_nat() % (ID::spec_max_random() + 1) < ID::spec_max_random() ==> (
        r2 matches IdGenStatus::Ready { id } && id.spec_is_valid() && id.spec_timestamp()
            == t.as_nat() && id.spec_random() == v.as_nat() % (ID::spec_max_random() + 1) + 1),
        v.as_nat() % (ID::spec_max_random() + 1) == ID::spec_max_random() ==> (
        r2 matches IdGenStatus::Pending { yield_for } && yield_for.as_nat() == 1),
{
    vstd::arithmetic::div_mod::lemma_small_mod(t.as_nat(), ID::spec_max_timestamp() + 1);
    vstd::arithmetic::div_mod::lemma_mod_bound(v.as_nat() as int, (ID::spec_max_random() + 1) as int);
}

impl<ID, T, R> UlidGenerator<ID, T, R> for BasicMonoUlidGenerator<ID, T, R> where
    ID: UlidId,
    T: TimeSource<ID::Ty>,
    R: RandSource<ID::Ty>,
 {
    type Err = core::convert::Infallible;

    open spec fn spec_try_next(before: Self, after: Self, r: Result<IdGenStatus<ID>, core::convert::Infallible>) -> bool {
        r matches Ok(status) && basic_mono_ulid_poll(before, after, status)
    }

    fn new(time: T, rng: R) -> (r: Self)
        ensures
            r.spec_time() == time,
            r.spec_rng() == rng,
            r@.spec_is_valid(),
            r@.spec_timestamp() == 0,
            r@.spec_random() == 0,
    {
        BasicMonoUlidGenerator::new(time, rng)
    }

    fn next_id(&mut self) -> (r: IdGenStatus<ID>)
        ensures
            basic_mono_ulid_poll(*old(self), *final(self), r),
    {
        BasicMonoUlidGenerator::next_id(self)
    }

    fn try_next_id(&mut self) -> (r: Result<IdGenStatus<ID>, core::convert::Infallible>) {
        Ok(BasicMonoUlidGenerator::next_id(self))
    }
}

} // verus!

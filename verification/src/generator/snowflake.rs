use vstd::prelude::*;

use super::interface::SnowflakeGenerator;
use super::status::IdGenStatus;
use crate::base32::{lemma_encode_id_order, lex_lt, spec_encode_id};
use crate::id::{Id, IdScalar, SnowflakeId};
use crate::time::TimeSource;

verus! {

/// One step of Snowflake generation: from the last ID handed out (`old`) and
/// the current time `now`, the new last ID and what the caller receives.
///
/// - Same millisecond: the sequence is incremented, or, when it is full, the
///   caller is told to wait one millisecond.
/// - Later millisecond: the timestamp moves to `now` and the sequence restarts
///   at zero.
/// - Earlier millisecond (the clock went back): the caller is told to wait
///   until the clock catches up.
pub open spec fn snowflake_step<ID: SnowflakeId>(
    old: ID,
    now: ID::Ty,
    new: ID,
    status: IdGenStatus<ID>,
) -> bool {
    let ts = old.spec_timestamp();
    if now.as_nat() == ts {
        if old.spec_sequence() < ID::spec_max_sequence() {
            &&& new.spec_is_valid()
            &&& new.spec_timestamp() == ts
            &&& new.spec_machine_id() == old.spec_machine_id()
            &&& new.spec_sequence() == old.spec_sequence() + 1
            &&& status == IdGenStatus::Ready { id: new }
        } else {
            &&& new == old
            &&& status matches IdGenStatus::Pending { yield_for } && yield_for.as_nat() == 1
        }
    } else if now.as_nat() > ts {
        &&& new.spec_is_valid()
        &&& new.spec_timestamp() == now.as_nat() % (ID::spec_max_timestamp() + 1)
        &&& new.spec_machine_id() == old.spec_machine_id()
        &&& new.spec_sequence() == 0
        &&& status == IdGenStatus::Ready { id: new }
    } else {
        &&& new == old
        &&& status matches IdGenStatus::Pending { yield_for } && yield_for.as_nat() == ts
            - now.as_nat()
    }
}

/// The pending status when the clock reads `now`, behind the last timestamp
/// `current_ts`: wait for the difference.
fn cold_clock_behind<ID: SnowflakeId>(now: ID::Ty, current_ts: ID::Ty) -> (r: IdGenStatus<ID>)
    requires
        now.as_nat() < current_ts.as_nat(),
    ensures
        r matches IdGenStatus::Pending { yield_for } && yield_for.as_nat() == current_ts.as_nat()
            - now.as_nat(),
{
    IdGenStatus::Pending { yield_for: current_ts.minus(now) }
}

/// `id` with its machine ID replaced by `machine`; its timestamp and
/// sequence are kept.
pub(crate) fn with_machine<ID: SnowflakeId>(id: ID, machine: ID::Ty) -> (r: ID)
    requires
        machine.as_nat() <= ID::spec_max_machine_id(),
    ensures
        r.spec_is_valid(),
        r.spec_timestamp() == id.spec_timestamp(),
        r.spec_machine_id() == machine.as_nat(),
        r.spec_sequence() == id.spec_sequence(),
{
    proof {
        id.lemma_layout();
        vstd::arithmetic::div_mod::lemma_small_mod(id.spec_timestamp(), ID::spec_max_timestamp() + 1);
        vstd::arithmetic::div_mod::lemma_small_mod(machine.as_nat(), ID::spec_max_machine_id() + 1);
        vstd::arithmetic::div_mod::lemma_small_mod(id.spec_sequence(), ID::spec_max_sequence() + 1);
    }
    ID::from_components(id.timestamp(), machine, id.sequence())
}

/// Computes one step of Snowflake generation (see [`snowflake_step`]).
pub fn next_snowflake_state<ID: SnowflakeId>(state: ID, now: ID::Ty) -> (r: (ID, IdGenStatus<ID>))
    ensures
        snowflake_step(state, now, r.0, r.1),
{
    let current_ts = state.timestamp();
    if now.is_same(current_ts) {
        if state.has_sequence_room() {
            let updated = state.increment_sequence();
            proof {
                vstd::arithmetic::div_mod::lemma_small_mod(
                    (state.spec_sequence() + 1) as nat,
                    ID::spec_max_sequence() + 1,
                );
            }
            (updated, IdGenStatus::Ready { id: updated })
        } else {
            (state, IdGenStatus::Pending { yield_for: <ID::Ty as IdScalar>::one() })
        }
    } else if current_ts.is_less(now) {
        let updated = state.rollover_to_timestamp(now);
        (updated, IdGenStatus::Ready { id: updated })
    } else {
        (state, cold_clock_behind(now, current_ts))
    }
}

} // verus!

verus! {

/// IDs from one Snowflake generator strictly increase: a step from a valid
/// last ID, with the clock at most the layout's largest timestamp, hands out
/// a valid ID greater than the last one and keeps the machine ID; a pending
/// step changes nothing.
pub proof fn lemma_snowflake_step_increases<ID: SnowflakeId>(
    old: ID,
    now: ID::Ty,
    new: ID,
    status: IdGenStatus<ID>,
)
    requires
        old.spec_is_valid(),
        now.as_nat() <= ID::spec_max_timestamp(),
        snowflake_step(old, now, new, status),
    ensures
        new.spec_is_valid(),
        new.spec_machine_id() == old.spec_machine_id(),
        status is Pending ==> new == old,
        status matches IdGenStatus::Ready { id } ==> id == new && old.spec_raw().as_nat()
            < new.spec_raw().as_nat(),
{
    old.lemma_layout();
    new.lemma_layout();
    let m1 = ID::spec_max_machine_id() + 1;
    let s1 = ID::spec_max_sequence() + 1;
    let a = old.spec_timestamp() * m1 + old.spec_machine_id();
    if now.as_nat() > old.spec_timestamp() {
        vstd::arithmetic::div_mod::lemma_small_mod(now.as_nat(), ID::spec_max_timestamp() + 1);
        let b = new.spec_timestamp() * m1 + new.spec_machine_id();
        let t0 = old.spec_timestamp();
        let t1 = new.spec_timestamp();
        assert(t1 * m1 >= (t0 + 1) * m1) by (nonlinear_arith)
            requires
                t1 >= t0 + 1,
                m1 >= 1,
        ;
        assert((t0 + 1) * m1 == t0 * m1 + m1) by (nonlinear_arith);
        assert(b >= a + 1);
        assert(b * s1 >= (a + 1) * s1) by (nonlinear_arith)
            requires
                b >= a + 1,
                s1 >= 1,
        ;
        assert((a + 1) * s1 == a * s1 + s1) by (nonlinear_arith);
    }
}

/// A run of Snowflake generation steps: `states[i + 1]` is the last ID after
/// the step that read the clock at `nows[i]` and answered `statuses[i]`.
pub open spec fn snowflake_run<ID: SnowflakeId>(
    states: Seq<ID>,
    nows: Seq<ID::Ty>,
    statuses: Seq<IdGenStatus<ID>>,
) -> bool {
    &&& states.len() == nows.len() + 1
    &&& statuses.len() == nows.len()
    &&& forall|i: int|
        0 <= i < nows.len() ==> #[trigger] snowflake_step(
            states[i],
            nows[i],
            states[i + 1],
            statuses[i],
        )
}

/// Along a run, every state is valid and no state is below an earlier one.
proof fn lemma_snowflake_run_states<ID: SnowflakeId>(
    states: Seq<ID>,
    nows: Seq<ID::Ty>,
    statuses: Seq<IdGenStatus<ID>>,
    i: int,
    j: int,
)
    requires
        snowflake_run(states, nows, statuses),
        states[0].spec_is_valid(),
        forall|k: int| 0 <= k < nows.len() ==> (#[trigger] nows[k]).as_nat() <= ID::spec_max_timestamp(),
        0 <= i <= j < states.len(),
    ensures
        states[j].spec_is_valid(),
        states[j].spec_machine_id() == states[0].spec_machine_id(),
        states[i].spec_raw().as_nat() <= states[j].spec_raw().as_nat(),
    decreases j,
{
    if j > 0 {
        if i < j {
            lemma_snowflake_run_states(states, nows, statuses, i, j - 1);
        } else {
            lemma_snowflake_run_states(states, nows, statuses, 0, j - 1);
        }
        let k = j - 1;
        assert(snowflake_step(states[k], nows[k], states[k + 1], statuses[k]));
        assert(k + 1 == j);
        lemma_snowflake_step_increases(states[k], nows[k], states[k + 1], statuses[k]);
    }
}

/// The IDs a Snowflake generator hands out over any run strictly increase
/// and keep the machine ID: from a valid start, with the clock never past the
/// layout's largest timestamp, an ID handed out later is greater than one
/// handed out earlier.
pub proof fn lemma_snowflake_run_increases<ID: SnowflakeId>(
    states: Seq<ID>,
    nows: Seq<ID::Ty>,
    statuses: Seq<IdGenStatus<ID>>,
    i: int,
    j: int,
)
    requires
        snowflake_run(states, nows, statuses),
        states[0].spec_is_valid(),
        forall|k: int| 0 <= k < nows.len() ==> (#[trigger] nows[k]).as_nat() <= ID::spec_max_timestamp(),
        0 <= i < j < statuses.len(),
        statuses[i] is Ready,
        statuses[j] is Ready,
    ensures
        statuses[i]->id.spec_raw().as_nat() < statuses[j]->id.spec_raw().as_nat(),
        statuses[i]->id.spec_machine_id() == states[0].spec_machine_id(),
        statuses[j]->id.spec_machine_id() == states[0].spec_machine_id(),
{
    lemma_snowflake_run_states(states, nows, statuses, 0, i);
    lemma_snowflake_run_states(states, nows, statuses, 0, i + 1);
    lemma_snowflake_run_states(states, nows, statuses, 0, j + 1);
    lemma_snowflake_run_states(states, nows, statuses, 0, j);
    lemma_snowflake_run_states(states, nows, statuses, i + 1, j);
    assert(snowflake_step(states[i], nows[i], states[i + 1], statuses[i]));
    assert(snowflake_step(states[j], nows[j], states[j + 1], statuses[j]));
    lemma_snowflake_step_increases(states[i], nows[i], states[i + 1], statuses[i]);
    lemma_snowflake_step_increases(states[j], nows[j], states[j + 1], statuses[j]);
}

/// The Crockford Base32 strings of the IDs one Snowflake generator hands out
/// sort, as text, in the order the IDs were handed out.
pub proof fn lemma_snowflake_step_sorts_as_text<ID: SnowflakeId>(
    old: ID,
    now: ID::Ty,
    new: ID,
    status: IdGenStatus<ID>,
)
    requires
        old.spec_is_valid(),
        now.as_nat() <= ID::spec_max_timestamp(),
        snowflake_step(old, now, new, status),
        status is Ready,
    ensures
        lex_lt(spec_encode_id(old), spec_encode_id(new)),
{
    lemma_snowflake_step_increases(old, now, new, status);
    old.spec_raw().lemma_value_is_nat();
    new.spec_raw().lemma_value_is_nat();
    lemma_encode_id_order(old, new);
}

/// A single-threaded Snowflake generator.
///
/// Not thread-safe: it takes `&mut self` to generate.
pub struct BasicSnowflakeGenerator<ID, T> where ID: SnowflakeId, T: TimeSource<ID::Ty> {
    state: ID,
    time: T,
    reading: Ghost<ID::Ty>,
}

impl<ID, T> View for BasicSnowflakeGenerator<ID, T> where ID: SnowflakeId, T: TimeSource<ID::Ty> {
    type V = ID;

    /// The last ID handed out (or the starting point).
    closed spec fn view(&self) -> ID {
        self.state
    }
}

impl<ID, T> BasicSnowflakeGenerator<ID, T> where ID: SnowflakeId, T: TimeSource<ID::Ty> {
    /// The clock this generator reads.
    pub closed spec fn spec_time(&self) -> T {
        self.time
    }

    /// The clock reading taken by the latest generation attempt (unspecified
    /// before the first).
    pub closed spec fn spec_last_reading(&self) -> ID::Ty {
        self.reading@
    }

    /// Creates a generator for `machine_id` whose timestamp and sequence
    /// start at zero, reading the time from `time`.
    pub fn new(machine_id: ID::Ty, time: T) -> (r: Self)
        ensures
            r.spec_time() == time,
            r@.spec_is_valid(),
            r@.spec_timestamp() == 0,
            r@.spec_machine_id() == machine_id.as_nat() % (ID::spec_max_machine_id() + 1),
            r@.spec_sequence() == 0,
    {
        Self::from_components(
            <ID::Ty as IdScalar>::zero(),
            machine_id,
            <ID::Ty as IdScalar>::zero(),
            time,
        )
    }

    /// Creates a generator whose state starts at the given components, each
    /// truncated to the width of its field.
    pub fn from_components(timestamp: ID::Ty, machine_id: ID::Ty, sequence: ID::Ty, time: T) -> (r:
        Self)
        ensures
            r.spec_time() == time,
            r@.spec_is_valid(),
            r@.spec_timestamp() == timestamp.as_nat() % (ID::spec_max_timestamp() + 1),
            r@.spec_machine_id() == machine_id.as_nat() % (ID::spec_max_machine_id() + 1),
            r@.spec_sequence() == sequence.as_nat() % (ID::spec_max_sequence() + 1),
    {
        let id = ID::from_components(timestamp, machine_id, sequence);
        BasicSnowflakeGenerator { state: id, time, reading: Ghost(timestamp) }
    }

    /// Attempts to generate the next ID at the time `time` reports: one step
    /// of [`snowflake_step`] from the last ID, at the reading it records.
    pub fn poll_id(&mut self) -> (r: IdGenStatus<ID>)
        ensures
            basic_snowflake_poll(*old(self), *final(self), r),
    {
        let read_clock = <T as TimeSource<ID::Ty>>::current_millis;
        let now = read_clock(&self.time);
        let (next, status) = next_snowflake_state(self.state, now);
        self.state = next;
        self.reading = Ghost(now);
        status
    }

    /// [`Self::poll_id`] in the fallible form; it never fails.
    pub fn try_poll_id(&mut self) -> (r: Result<IdGenStatus<ID>, core::convert::Infallible>)
        ensures
            r matches Ok(status) && basic_snowflake_poll(*old(self), *final(self), status),
    {
        Ok(self.poll_id())
    }
}

/// One generation attempt of a basic Snowflake generator: it keeps its
/// clock, reads it, and takes one [`snowflake_step`] from its last ID at that
/// reading.
pub open spec fn basic_snowflake_poll<ID: SnowflakeId, T: TimeSource<ID::Ty>>(
    before: BasicSnowflakeGenerator<ID, T>,
    after: BasicSnowflakeGenerator<ID, T>,
    r: IdGenStatus<ID>,
) -> bool {
    &&& after.spec_time() == before.spec_time()
    &&& call_ensures(
        <T as TimeSource<ID::Ty>>::current_millis,
        (&before.spec_time(),),
        after.spec_last_reading(),
    )
    &&& snowflake_step(before@, after.spec_last_reading(), after@, r)
}

/// Over any run of generation attempts on one basic Snowflake generator,
/// from a valid state and with every clock reading at most the layout's
/// largest timestamp, the IDs handed out keep the generator's machine ID and
/// strictly increase: an ID handed out later is greater than one handed out
/// earlier, so none is handed out twice.
pub proof fn lemma_basic_snowflake_polls_increase<ID: SnowflakeId, T: TimeSource<ID::Ty>>(
    gens: Seq<BasicSnowflakeGenerator<ID, T>>,
    statuses: Seq<IdGenStatus<ID>>,
    i: int,
    j: int,
)
    requires
        gens.len() == statuses.len() + 1,
        forall|k: int|
            0 <= k < statuses.len() ==> #[trigger] basic_snowflake_poll(
                gens[k],
                gens[k + 1],
                statuses[k],
            ),
        gens[0]@.spec_is_valid(),
        forall|k: int|
            0 < k < gens.len() ==> (#[trigger] gens[k].spec_last_reading()).as_nat()
                <= ID::spec_max_timestamp(),
        0 <= i < j < statuses.len(),
        statuses[i] is Ready,
        statuses[j] is Ready,
    ensures
        statuses[i]->id.spec_raw().as_nat() < statuses[j]->id.spec_raw().as_nat(),
        statuses[i]->id.spec_machine_id() == gens[0]@.spec_machine_id(),
        statuses[j]->id.spec_machine_id() == gens[0]@.spec_machine_id(),
{
    let states = Seq::new(gens.len(), |k: int| gens[k]@);
    let nows = Seq::new(statuses.len(), |k: int| gens[k + 1].spec_last_reading());
    assert forall|k: int| 0 <= k < nows.len() implies #[trigger] snowflake_step(
        states[k],
        nows[k],
        states[k + 1],
        statuses[k],
    ) by {
        assert(basic_snowflake_poll(gens[k], gens[k + 1], statuses[k]));
    }
    assert forall|k: int| 0 <= k < nows.len() implies (#[trigger] nows[k]).as_nat()
        <= ID::spec_max_timestamp() by {
        assert(gens[k + 1].spec_last_reading() == nows[k]);
    }
    lemma_snowflake_run_increases(states, nows, statuses, i, j);
}

impl<ID, T> SnowflakeGenerator<ID, T> for BasicSnowflakeGenerator<ID, T> where
    ID: SnowflakeId,
    T: TimeSource<ID::Ty>,
 {
    type Err = core::convert::Infallible;

    open spec fn spec_try_next(before: Self, after: Self, r: Result<IdGenStatus<ID>, core::convert::Infallible>) -> bool {
        r matches Ok(status) && basic_snowflake_poll(before, after, status)
    }

    fn new(machine_id: ID::Ty, time: T) -> (r: Self)
        ensures
            r.spec_time() == time,
            r@.spec_is_valid(),
            r@.spec_timestamp() == 0,
            r@.spec_machine_id() == machine_id.as_nat() % (ID::spec_max_machine_id() + 1),
            r@.spec_sequence() == 0,
    {
        BasicSnowflakeGenerator::new(machine_id, time)
    }

    fn next_id(&mut self) -> (r: IdGenStatus<ID>)
        ensures
            basic_snowflake_poll(*old(self), *final(self), r),
    {
        self.poll_id()
    }

    fn try_next_id(&mut self) -> (r: Result<IdGenStatus<ID>, core::convert::Infallible>) {
        Ok(self.poll_id())
    }
}

} // verus!

use vstd::prelude::*;

use super::status::IdGenStatus;
use crate::id::{SnowflakeId, UlidId};
use crate::rand::RandSource;
use crate::time::TimeSource;

verus! {

/// A generator of Snowflake identifiers.
pub trait SnowflakeGenerator<ID: SnowflakeId, T: TimeSource<ID::Ty>>: Sized {
    /// The error a generation attempt can report.
    type Err;

    /// What one call of [`SnowflakeGenerator::try_next_id`] can do: take the
    /// generator from `before` to `after` and answer `r`.
    spec fn spec_try_next(before: Self, after: Self, r: Result<IdGenStatus<ID>, Self::Err>) -> bool;

    /// Creates a generator for `machine_id`, reading the time from `time`.
    fn new(machine_id: ID::Ty, time: T) -> Self;

    /// Attempts to generate the next identifier; a ready identifier is valid.
    fn next_id(&mut self) -> (r: IdGenStatus<ID>)
        ensures
            r matches IdGenStatus::Ready { id } ==> id.spec_is_valid(),
    ;

    /// [`SnowflakeGenerator::next_id`] in the fallible form.
    fn try_next_id(&mut self) -> (r: Result<IdGenStatus<ID>, Self::Err>)
        ensures
            r matches Ok(IdGenStatus::Ready { id }) ==> id.spec_is_valid(),
            Self::spec_try_next(*old(self), *final(self), r),
    ;
}

/// A generator of ULIDs.
pub trait UlidGenerator<ID: UlidId, T: TimeSource<ID::Ty>, R: RandSource<ID::Ty>>: Sized {
    /// The error a generation attempt can report.
    type Err;

    /// What one call of [`UlidGenerator::try_next_id`] can do: take the
    /// generator from `before` to `after` and answer `r`.
    spec fn spec_try_next(before: Self, after: Self, r: Result<IdGenStatus<ID>, Self::Err>) -> bool;

    /// Creates a generator reading the time from `time` and random values
    /// from `rng`.
    fn new(time: T, rng: R) -> Self;

    /// Attempts to generate the next identifier; a ready identifier is valid.
    fn next_id(&mut self) -> (r: IdGenStatus<ID>)
        ensures
            r matches IdGenStatus::Ready { id } ==> id.spec_is_valid(),
    ;

    /// [`UlidGenerator::next_id`] in the fallible form.
    fn try_next_id(&mut self) -> (r: Result<IdGenStatus<ID>, Self::Err>)
        ensures
            r matches Ok(IdGenStatus::Ready { id }) ==> id.spec_is_valid(),
            Self::spec_try_next(*old(self), *final(self), r),
    ;
}

} // verus!

use vstd::prelude::*;

use crate::id::Id;

verus! {

/// The outcome of one attempt to generate an ID.
#[derive(Clone, Copy, Debug, PartialEq, Eq, Hash)]
pub enum IdGenStatus<ID: Id> {
    /// A new ID was generated.
    Ready { id: ID },
    /// No ID is available yet; retry after `yield_for` milliseconds.
    Pending { yield_for: ID::Ty },
}

} // verus!

use core::marker::PhantomData;
use vstd::prelude::*;

use crate::generator::{IdGenStatus, SnowflakeGenerator};
use crate::id::SnowflakeId;
use crate::time::TimeSource;

verus! {

/// A round-robin group of Snowflake generators: each attempt asks the next
/// generator in turn, so the generators share the load.
pub struct Army<G, ID, T> where G: SnowflakeGenerator<ID, T>, ID: SnowflakeId, T: TimeSource<ID::Ty> {
    generators: Vec<G>,
    next: usize,
    _idt: PhantomData<(ID, T)>,
}

impl<G, ID, T> Army<G, ID, T> where G: SnowflakeGenerator<ID, T>, ID: SnowflakeId, T: TimeSource<ID::Ty> {
    #[verifier::type_invariant]
    spec fn inv(self) -> bool {
        self.next < self.generators@.len()
    }

    /// The generators, in the order they take turns.
    pub closed spec fn spec_generators(&self) -> Seq<G> {
        self.generators@
    }

    /// The position of the generator whose turn is next.
    pub closed spec fn spec_next(&self) -> nat {
        self.next as nat
    }

    /// Creates a group from at least one generator; the first one goes
    /// first.
    pub fn new(generators: Vec<G>) -> (r: Self)
        requires
            generators@.len() > 0,
        ensures
            r.spec_generators() == generators@,
            r.spec_next() == 0,
    {
        Army { generators, next: 0, _idt: PhantomData }
    }

    /// Asks the generator whose turn it is for an ID and returns its answer.
    /// On an answer (ready or pending) the turn passes to the next
    /// generator; on an error it stays. The other generators are left as they
    /// were.
    pub fn try_poll_id(&mut self) -> (r: Result<IdGenStatus<ID>, G::Err>)
        ensures
            final(self).spec_generators().len() == old(self).spec_generators().len(),
            r is Ok ==> final(self).spec_next() as int == (old(self).spec_next() + 1) as int % (old(
                self,
            ).spec_generators().len() as int),
            r is Err ==> final(self).spec_next() == old(self).spec_next(),
            r matches Ok(IdGenStatus::Ready { id }) ==> id.spec_is_valid(),
            G::spec_try_next(
                old(self).spec_generators()[old(self).spec_next() as int],
                final(self).spec_generators()[old(self).spec_next() as int],
                r,
            ),
            forall|j: int|
                0 <= j < old(self).spec_generators().len() && j != old(self).spec_next()
                    ==> final(self).spec_generators()[j] == old(self).spec_generators()[j],
    {
        proof {
            use_type_invariant(&*self);
        }
        let i = self.next;
        let r = self.generators[i].try_next_id();
        if r.is_err() {
            return r;
        }
        let n = self.generators.len();
        self.next = if i + 1 == n { 0 } else { i + 1 };
        proof {
            if i + 1 == n {
                vstd::arithmetic::div_mod::lemma_mod_self_0(n as int);
            } else {
                vstd::arithmetic::div_mod::lemma_small_mod((i + 1) as nat, n as nat);
            }
        }
        r
    }
}

} // verus!

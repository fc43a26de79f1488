use vstd::prelude::*;

use super::scalar::IdScalar;

verus! {

/// A type that wraps a primitive unsigned integer identifier.
///
/// The raw integer determines the identifier completely: two identifiers with
/// the same raw value are the same identifier.
pub trait Id: Copy + Sized {
    /// Scalar type for all bit fields (`u64` or `u128`).
    type Ty: IdScalar;

    /// The raw integer of this identifier.
    spec fn spec_raw(&self) -> Self::Ty;

    proof fn lemma_raw_injective(a: Self, b: Self)
        ensures
            a.spec_raw() == b.spec_raw() ==> a == b,
    ;

    /// Converts this identifier into its raw integer.
    fn to_raw(&self) -> (r: Self::Ty)
        ensures
            r == self.spec_raw(),
    ;

    /// Converts a raw integer into an identifier.
    fn from_raw(raw: Self::Ty) -> (r: Self)
        ensures
            r.spec_raw() == raw,
    ;
}

/// A Snowflake-style identifier: one integer split, from the most significant
/// bit down, into reserved bits, a timestamp, a machine ID and a sequence.
///
/// A value is *valid* when its reserved bits are zero. The raw integer of a
/// valid identifier is
/// `(timestamp * (max_machine_id + 1) + machine_id) * (max_sequence + 1) + sequence`,
/// so valid identifiers order by timestamp, then machine ID, then sequence.
pub trait SnowflakeId: Id {
    spec fn spec_timestamp(&self) -> nat;

    spec fn spec_machine_id(&self) -> nat;

    spec fn spec_sequence(&self) -> nat;

    spec fn spec_max_timestamp() -> nat;

    spec fn spec_max_machine_id() -> nat;

    spec fn spec_max_sequence() -> nat;

    spec fn spec_is_valid(&self) -> bool;

    /// The fields lie within their ranges, and a value is valid exactly when
    /// its raw integer is the packing of its fields.
    proof fn lemma_layout(self)
        ensures
            self.spec_timestamp() <= Self::spec_max_timestamp(),
            self.spec_machine_id() <= Self::spec_max_machine_id(),
            self.spec_sequence() <= Self::spec_max_sequence(),
            Self::spec_max_timestamp() < <Self::Ty as IdScalar>::spec_max(),
            Self::spec_max_machine_id() < <Self::Ty as IdScalar>::spec_max(),
            Self::spec_max_sequence() < <Self::Ty as IdScalar>::spec_max(),
            self.spec_is_valid() <==> self.spec_raw().as_nat() == (self.spec_timestamp() * (
            Self::spec_max_machine_id() + 1) + self.spec_machine_id()) * (
            Self::spec_max_sequence() + 1) + self.spec_sequence(),
    ;

    /// Returns the timestamp portion of the ID.
    fn timestamp(&self) -> (r: Self::Ty)
        ensures
            r.as_nat() == self.spec_timestamp(),
    ;

    /// Returns the maximum possible value for the timestamp field.
    fn max_timestamp() -> (r: Self::Ty)
        ensures
            r.as_nat() == Self::spec_max_timestamp(),
    ;

    /// Returns the machine ID portion of the ID.
    fn machine_id(&self) -> (r: Self::Ty)
        ensures
            r.as_nat() == self.spec_machine_id(),
    ;

    /// Returns the maximum possible value for the machine_id field.
    fn max_machine_id() -> (r: Self::Ty)
        ensures
            r.as_nat() == Self::spec_max_machine_id(),
    ;

    /// Returns the sequence portion of the ID.
    fn sequence(&self) -> (r: Self::Ty)
        ensures
            r.as_nat() == self.spec_sequence(),
    ;

    /// Returns the maximum possible value for the sequence field.
    fn max_sequence() -> (r: Self::Ty)
        ensures
            r.as_nat() == Self::spec_max_sequence(),
    ;

    /// Constructs a new ID from its components; each component is truncated
    /// to the width of its field.
    fn from_components(timestamp: Self::Ty, machine_id: Self::Ty, sequence: Self::Ty) -> (r:
        Self)
        ensures
            r.spec_is_valid(),
            r.spec_timestamp() == timestamp.as_nat() % (Self::spec_max_timestamp() + 1),
            r.spec_machine_id() == machine_id.as_nat() % (Self::spec_max_machine_id() + 1),
            r.spec_sequence() == sequence.as_nat() % (Self::spec_max_sequence() + 1),
    ;

    /// Returns `true` if the reserved bits are unset.
    fn is_valid(&self) -> (r: bool)
        ensures
            r == self.spec_is_valid(),
    ;

    /// Returns this ID with its reserved bits cleared.
    fn into_valid(self) -> (r: Self)
        ensures
            r.spec_is_valid(),
            r.spec_timestamp() == self.spec_timestamp(),
            r.spec_machine_id() == self.spec_machine_id(),
            r.spec_sequence() == self.spec_sequence(),
    ;

    /// Returns true if the current sequence value can be incremented.
    fn has_sequence_room(&self) -> (r: bool)
        ensures
            r == (self.spec_sequence() < Self::spec_max_sequence()),
    {
        self.sequence().is_less(Self::max_sequence())
    }

    /// Returns the next sequence value.
    fn next_sequence(&self) -> (r: Self::Ty)
        ensures
            r.as_nat() == self.spec_sequence() + 1,
    {
        proof {
            self.lemma_layout();
        }
        self.sequence().plus_one()
    }

    /// Returns a new ID with the sequence incremented; a full sequence wraps
    /// to zero.
    fn increment_sequence(&self) -> (r: Self)
        ensures
            r.spec_is_valid(),
            r.spec_timestamp() == self.spec_timestamp(),
            r.spec_machine_id() == self.spec_machine_id(),
            r.spec_sequence() == (self.spec_sequence() + 1) % (Self::spec_max_sequence() + 1),
    {
        proof {
            self.lemma_layout();
            vstd::arithmetic::div_mod::lemma_small_mod(
                self.spec_timestamp(),
                Self::spec_max_timestamp() + 1,
            );
            vstd::arithmetic::div_mod::lemma_small_mod(
                self.spec_machine_id(),
                Self::spec_max_machine_id() + 1,
            );
        }
        Self::from_components(self.timestamp(), self.machine_id(), self.next_sequence())
    }

    /// Returns a new ID for the timestamp `ts` with the sequence reset to
    /// zero.
    fn rollover_to_timestamp(&self, ts: Self::Ty) -> (r: Self)
        ensures
            r.spec_is_valid(),
            r.spec_timestamp() == ts.as_nat() % (Self::spec_max_timestamp() + 1),
            r.spec_machine_id() == self.spec_machine_id(),
            r.spec_sequence() == 0,
    {
        proof {
            self.lemma_layout();
            vstd::arithmetic::div_mod::lemma_small_mod(
                self.spec_machine_id(),
                Self::spec_max_machine_id() + 1,
            );
        }
        Self::from_components(ts, self.machine_id(), <Self::Ty as IdScalar>::zero())
    }
}

} // verus!

verus! {

/// A ULID-style identifier: one integer split, from the most significant bit
/// down, into reserved bits, a timestamp and a random part.
///
/// A value is *valid* when its reserved bits are zero. The raw integer of a
/// valid identifier is `timestamp * (max_random + 1) + random`, so valid
/// identifiers order by timestamp, then random part.
pub trait UlidId: Id {
    spec fn spec_timestamp(&self) -> nat;

    spec fn spec_random(&self) -> nat;

    spec fn spec_max_timestamp() -> nat;

    spec fn spec_max_random() -> nat;

    spec fn spec_is_valid(&self) -> bool;

    /// The fields lie within their ranges, and a value is valid exactly when
    /// its raw integer is the packing of its fields.
    proof fn lemma_layout(self)
        ensures
            self.spec_timestamp() <= Self::spec_max_timestamp(),
            self.spec_random() <= Self::spec_max_random(),
            Self::spec_max_timestamp() < <Self::Ty as IdScalar>::spec_max(),
            Self::spec_max_random() < <Self::Ty as IdScalar>::spec_max(),
            self.spec_is_valid() <==> self.spec_raw().as_nat() == self.spec_timestamp() * (
            Self::spec_max_random() + 1) + self.spec_random(),
    ;

    /// Returns the timestamp portion of the ID.
    fn timestamp(&self) -> (r: Self::Ty)
        ensures
            r.as_nat() == self.spec_timestamp(),
    ;

    /// Returns the random portion of the ID.
    fn random(&self) -> (r: Self::Ty)
        ensures
            r.as_nat() == self.spec_random(),
    ;

    /// Returns the maximum possible value for the timestamp field.
    fn max_timestamp() -> (r: Self::Ty)
        ensures
            r.as_nat() == Self::spec_max_timestamp(),
    ;

    /// Returns the maximum possible value for the random field.
    fn max_random() -> (r: Self::Ty)
        ensures
            r.as_nat() == Self::spec_max_random(),
    ;

    /// Constructs a new ULID from its components; each component is truncated
    /// to the width of its field.
    fn from_components(timestamp: Self::Ty, random: Self::Ty) -> (r: Self)
        ensures
            r.spec_is_valid(),
            r.spec_timestamp() == timestamp.as_nat() % (Self::spec_max_timestamp() + 1),
            r.spec_random() == random.as_nat() % (Self::spec_max_random() + 1),
    ;

    /// Returns `true` if the reserved bits are unset.
    fn is_valid(&self) -> (r: bool)
        ensures
            r == self.spec_is_valid(),
    ;

    /// Returns this ID with its reserved bits cleared.
    fn into_valid(self) -> (r: Self)
        ensures
            r.spec_is_valid(),
            r.spec_timestamp() == self.spec_timestamp(),
            r.spec_random() == self.spec_random(),
    ;

    /// Returns true if the random portion can be incremented.
    fn has_random_room(&self) -> (r: bool)
        ensures
            r == (self.spec_random() < Self::spec_max_random()),
    {
        self.random().is_less(Self::max_random())
    }

    /// Returns the next random value.
    fn next_random(&self) -> (r: Self::Ty)
        ensures
            r.as_nat() == self.spec_random() + 1,
    {
        proof {
            self.lemma_layout();
        }
        self.random().plus_one()
    }

    /// Returns a new ID with the random portion incremented; a full random
    /// portion wraps to zero.
    fn increment_random(&self) -> (r: Self)
        ensures
            r.spec_is_valid(),
            r.spec_timestamp() == self.spec_timestamp(),
            r.spec_random() == (self.spec_random() + 1) % (Self::spec_max_random() + 1),
    {
        proof {
            self.lemma_layout();
            vstd::arithmetic::div_mod::lemma_small_mod(
                self.spec_timestamp(),
                Self::spec_max_timestamp() + 1,
            );
        }
        Self::from_components(self.timestamp(), self.next_random())
    }

    /// Returns a new ID for the timestamp `ts` with the random portion `rand`.
    fn rollover_to_timestamp(&self, ts: Self::Ty, rand: Self::Ty) -> (r: Self)
        ensures
            r.spec_is_valid(),
            r.spec_timestamp() == ts.as_nat() % (Self::spec_max_timestamp() + 1),
            r.spec_random() == rand.as_nat() % (Self::spec_max_random() + 1),
    {
        Self::from_components(ts, rand)
    }
}

} // verus!

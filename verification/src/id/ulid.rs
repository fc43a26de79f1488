use vstd::prelude::*;

use super::interface::{Id, UlidId};
use super::scalar::IdScalar;
use crate::rand::{RandSource, ThreadRandom};
use crate::time::{spec_duration_millis, spec_duration_since_epoch, spec_unix_millis, unix_millis};

verus! {

/// A 128-bit ULID: a 48-bit timestamp (milliseconds since the Unix epoch)
/// followed by an 80-bit random part.
#[derive(Clone, Copy, PartialEq, Eq, Structural, PartialOrd, Ord, Hash, Debug)]
pub struct ULID {
    id: u128,
}

proof fn lemma_ulid_bits(x: u128, t: u128, r: u128)
    by (bit_vector)
    ensures
        (((((t & 0xFFFF_FFFF_FFFF) << 80u128) | (r & 0xFFFF_FFFF_FFFF_FFFF_FFFF)) >> 80u128) & 0xFFFF_FFFF_FFFF) == t & 0xFFFF_FFFF_FFFF,
        ((((t & 0xFFFF_FFFF_FFFF) << 80u128) | (r & 0xFFFF_FFFF_FFFF_FFFF_FFFF)) & 0xFFFF_FFFF_FFFF_FFFF_FFFF) == r & 0xFFFF_FFFF_FFFF_FFFF_FFFF,
        t & 0xFFFF_FFFF_FFFF == t % 0x1_0000_0000_0000,
        r & 0xFFFF_FFFF_FFFF_FFFF_FFFF == r % 0x1_0000_0000_0000_0000_0000,
        ((x >> 80u128) & 0xFFFF_FFFF_FFFF) <= 0xFFFF_FFFF_FFFF,
        (x & 0xFFFF_FFFF_FFFF_FFFF_FFFF) <= 0xFFFF_FFFF_FFFF_FFFF_FFFF,
        x == ((x >> 80u128) & 0xFFFF_FFFF_FFFF) * 0x1_0000_0000_0000_0000_0000 + (x & 0xFFFF_FFFF_FFFF_FFFF_FFFF),
{
}

impl ULID {
    pub const RESERVED_BITS: u128 = 0;
    pub const TIMESTAMP_BITS: u128 = 48;
    pub const RANDOM_BITS: u128 = 80;
    pub const RANDOM_SHIFT: u128 = 0;
    pub const TIMESTAMP_SHIFT: u128 = 80;
    pub const RESERVED_SHIFT: u128 = 128;
    pub const RESERVED_MASK: u128 = 0;
    pub const TIMESTAMP_MASK: u128 = 0xFFFF_FFFF_FFFF;
    pub const RANDOM_MASK: u128 = 0xFFFF_FFFF_FFFF_FFFF_FFFF;

    /// Packs the components, each truncated to the width of its field.
    pub fn from(timestamp: u128, random: u128) -> (r: Self)
        ensures
            r.spec_raw() == ((timestamp & 0xFFFF_FFFF_FFFF) << 80u128) | (random & 0xFFFF_FFFF_FFFF_FFFF_FFFF),
    {
        let t = (timestamp & 0xFFFF_FFFF_FFFF) << 80u128;
        let r = random & 0xFFFF_FFFF_FFFF_FFFF_FFFF;
        ULID { id: t | r }
    }

    /// Generates a ULID from the given timestamp in milliseconds since the
    /// Unix epoch, with its random part drawn from `rng`.
    pub fn from_timestamp_and_rand<R: RandSource<u128>>(timestamp: u128, rng: &R) -> (r: Self)
        ensures
            r.spec_is_valid(),
            r.spec_timestamp() == timestamp % 0x1_0000_0000_0000,
            exists|v: u128|
                #[trigger] call_ensures(<R as RandSource<u128>>::rand, (rng,), v) && r.spec_random()
                    == v % 0x1_0000_0000_0000_0000_0000,
    {
        let draw = <R as RandSource<u128>>::rand;
        let random = draw(rng);
        proof {
            lemma_ulid_bits(0, timestamp, random);
        }
        Self::from(timestamp, random)
    }

    /// Generates a ULID from the given timestamp in milliseconds since the
    /// Unix epoch, with a random part from the thread-local generator.
    pub fn from_timestamp(timestamp: u128) -> (r: Self)
        ensures
            r.spec_is_valid(),
            r.spec_timestamp() == timestamp % 0x1_0000_0000_0000,
    {
        Self::from_timestamp_and_rand(timestamp, &ThreadRandom)
    }

    /// Generates a ULID for the given wall-clock time (a time before the
    /// Unix epoch counts as the epoch), with its random part drawn from
    /// `rng`.
    pub fn from_datetime_and_rand<R: RandSource<u128>>(datetime: std::time::SystemTime, rng: &R) -> (r:
        Self)
        ensures
            r.spec_is_valid(),
            r.spec_timestamp() == spec_unix_millis(datetime) % 0x1_0000_0000_0000,
            spec_duration_since_epoch(datetime) matches Some(d) ==> r.spec_timestamp()
                == spec_duration_millis(d) % 0x1_0000_0000_0000,
            spec_duration_since_epoch(datetime) is None ==> r.spec_timestamp() == 0,
            exists|v: u128|
                #[trigger] call_ensures(<R as RandSource<u128>>::rand, (rng,), v) && r.spec_random()
                    == v % 0x1_0000_0000_0000_0000_0000,
    {
        Self::from_timestamp_and_rand(unix_millis(datetime), rng)
    }

    /// Generates a ULID for the given wall-clock time, with a random part
    /// from the thread-local generator.
    pub fn from_datetime(datetime: std::time::SystemTime) -> (r: Self)
        ensures
            r.spec_is_valid(),
            r.spec_timestamp() == spec_unix_millis(datetime) % 0x1_0000_0000_0000,
            spec_duration_since_epoch(datetime) matches Some(d) ==> r.spec_timestamp()
                == spec_duration_millis(d) % 0x1_0000_0000_0000,
            spec_duration_since_epoch(datetime) is None ==> r.spec_timestamp() == 0,
    {
        Self::from_datetime_and_rand(datetime, &ThreadRandom)
    }
}

impl Id for ULID {
    type Ty = u128;

    closed spec fn spec_raw(&self) -> u128 {
        self.id
    }

    proof fn lemma_raw_injective(a: Self, b: Self) {
    }

    fn to_raw(&self) -> (r: u128) {
        self.id
    }

    fn from_raw(raw: u128) -> (r: Self) {
        ULID { id: raw }
    }
}

impl UlidId for ULID {
    closed spec fn spec_timestamp(&self) -> nat {
        ((self.id >> 80u128) & 0xFFFF_FFFF_FFFF) as nat
    }

    closed spec fn spec_random(&self) -> nat {
        (self.id & 0xFFFF_FFFF_FFFF_FFFF_FFFF) as nat
    }

    open spec fn spec_max_timestamp() -> nat {
        0xFFFF_FFFF_FFFF
    }

    open spec fn spec_max_random() -> nat {
        0xFFFF_FFFF_FFFF_FFFF_FFFF
    }

    closed spec fn spec_is_valid(&self) -> bool {
        true
    }

    proof fn lemma_layout(self) {
        let x = self.id;
        lemma_ulid_bits(x, 0, 0);
        assert(Self::spec_max_timestamp() == 0xFFFF_FFFF_FFFF);
        assert(Self::spec_max_random() == 0xFFFF_FFFF_FFFF_FFFF_FFFF);
        assert(<u128 as IdScalar>::spec_max() == u128::MAX);
        assert(self.spec_timestamp() <= 0xFFFF_FFFF_FFFF);
        assert(self.spec_random() <= 0xFFFF_FFFF_FFFF_FFFF_FFFF);
        assert(self.spec_raw().as_nat() == x as nat);
        assert(x as nat == self.spec_timestamp() * 0x1_0000_0000_0000_0000_0000 + self.spec_random());
        assert(self.spec_is_valid());
    }

    fn timestamp(&self) -> (r: u128) {
        let r = (self.id >> 80u128) & 0xFFFF_FFFF_FFFF;
        assert(r.as_nat() == self.spec_timestamp());
        r
    }

    fn random(&self) -> (r: u128) {
        let r = self.id & 0xFFFF_FFFF_FFFF_FFFF_FFFF;
        assert(r.as_nat() == self.spec_random());
        r
    }

    fn max_timestamp() -> (r: u128) {
        let r: u128 = 0xFFFF_FFFF_FFFF;
        assert(r.as_nat() == Self::spec_max_timestamp());
        r
    }

    fn max_random() -> (r: u128) {
        let r: u128 = 0xFFFF_FFFF_FFFF_FFFF_FFFF;
        assert(r.as_nat() == Self::spec_max_random());
        r
    }

    fn from_components(timestamp: u128, random: u128) -> (r: Self) {
        proof {
            lemma_ulid_bits(0, timestamp, random);
        }
        Self::from(timestamp, random)
    }

    fn is_valid(&self) -> (r: bool) {
        true
    }

    fn into_valid(self) -> (r: Self) {
        self
    }
}

/// Shortcuts for making ULIDs without a generator.
///
/// Generation from thread-local generators is left to the application, which
/// owns the threads.
pub struct Ulid;

impl Ulid {
    /// A ULID for the given timestamp in milliseconds since the Unix epoch,
    /// with a random part from the thread-local generator.
    pub fn from_timestamp(timestamp: u128) -> (r: ULID)
        ensures
            r.spec_is_valid(),
            r.spec_timestamp() == timestamp % 0x1_0000_0000_0000,
    {
        ULID::from_timestamp(timestamp)
    }

    /// A ULID for the given timestamp in milliseconds since the Unix epoch,
    /// with its random part drawn from `rng`.
    pub fn from_timestamp_and_rand<R: RandSource<u128>>(timestamp: u128, rng: &R) -> (r: ULID)
        ensures
            r.spec_is_valid(),
            r.spec_timestamp() == timestamp % 0x1_0000_0000_0000,
            exists|v: u128|
                #[trigger] call_ensures(<R as RandSource<u128>>::rand, (rng,), v) && r.spec_random()
                    == v % 0x1_0000_0000_0000_0000_0000,
    {
        ULID::from_timestamp_and_rand(timestamp, rng)
    }

    /// A ULID for the given wall-clock time, with a random part from the
    /// thread-local generator.
    pub fn from_datetime(datetime: std::time::SystemTime) -> (r: ULID)
        ensures
            r.spec_is_valid(),
            r.spec_timestamp() == spec_unix_millis(datetime) % 0x1_0000_0000_0000,
            spec_duration_since_epoch(datetime) matches Some(d) ==> r.spec_timestamp()
                == spec_duration_millis(d) % 0x1_0000_0000_0000,
            spec_duration_since_epoch(datetime) is None ==> r.spec_timestamp() == 0,
    {
        ULID::from_datetime(datetime)
    }

    /// A ULID for the given wall-clock time, with its random part drawn from
    /// `rng`.
    pub fn from_datetime_and_rand<R: RandSource<u128>>(datetime: std::time::SystemTime, rng: &R) -> (r:
        ULID)
        ensures
            r.spec_is_valid(),
            r.spec_timestamp() == spec_unix_millis(datetime) % 0x1_0000_0000_0000,
            spec_duration_since_epoch(datetime) matches Some(d) ==> r.spec_timestamp()
                == spec_duration_millis(d) % 0x1_0000_0000_0000,
            spec_duration_since_epoch(datetime) is None ==> r.spec_timestamp() == 0,
            exists|v: u128|
                #[trigger] call_ensures(<R as RandSource<u128>>::rand, (rng,), v) && r.spec_random()
                    == v % 0x1_0000_0000_0000_0000_0000,
    {
        ULID::from_datetime_and_rand(datetime, rng)
    }
}

} // verus!

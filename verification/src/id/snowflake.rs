use vstd::prelude::*;

use super::interface::{Id, SnowflakeId};
use super::scalar::IdScalar;

verus! {

/// A 64-bit Snowflake ID using the Twitter layout: 1 reserved bit, a 41-bit
/// timestamp (milliseconds since the Twitter epoch), a 10-bit machine ID and a
/// 12-bit sequence, most significant first.
#[derive(Clone, Copy, PartialEq, Eq, Structural, PartialOrd, Ord, Hash, Debug)]
pub struct SnowflakeTwitterId {
    id: u64,
}

proof fn lemma_twitter_bits(x: u64, t: u64, m: u64, s: u64)
    by (bit_vector)
    ensures
        (((((t & 0x1FF_FFFF_FFFF) << 22u64) | ((m & 0x3FF) << 12u64) | (s & 0xFFF)) >> 22u64) & 0x1FF_FFFF_FFFF) == t & 0x1FF_FFFF_FFFF,
        (((((t & 0x1FF_FFFF_FFFF) << 22u64) | ((m & 0x3FF) << 12u64) | (s & 0xFFF)) >> 12u64) & 0x3FF) == m & 0x3FF,
        ((((t & 0x1FF_FFFF_FFFF) << 22u64) | ((m & 0x3FF) << 12u64) | (s & 0xFFF)) & 0xFFF) == s & 0xFFF,
        (((t & 0x1FF_FFFF_FFFF) << 22u64) | ((m & 0x3FF) << 12u64) | (s & 0xFFF)) & 0x8000_0000_0000_0000 == 0,
        t & 0x1FF_FFFF_FFFF == t % 0x200_0000_0000,
        m & 0x3FF == m % 0x400,
        s & 0xFFF == s % 0x1000,
        ((x >> 22u64) & 0x1FF_FFFF_FFFF) <= 0x1FF_FFFF_FFFF,
        ((x >> 12u64) & 0x3FF) <= 0x3FF,
        (x & 0xFFF) <= 0xFFF,
        (x & 0x8000_0000_0000_0000 == 0) == (x == ((x >> 22u64) & 0x1FF_FFFF_FFFF) * 0x40_0000 + ((x >> 12u64) & 0x3FF) * 0x1000 + (x & 0xFFF)),
        (x & 0x7FFF_FFFF_FFFF_FFFF) & 0x8000_0000_0000_0000 == 0,
        (((x & 0x7FFF_FFFF_FFFF_FFFF) >> 22u64) & 0x1FF_FFFF_FFFF) == ((x >> 22u64) & 0x1FF_FFFF_FFFF),
        (((x & 0x7FFF_FFFF_FFFF_FFFF) >> 12u64) & 0x3FF) == ((x >> 12u64) & 0x3FF),
        ((x & 0x7FFF_FFFF_FFFF_FFFF) & 0xFFF) == (x & 0xFFF),
{
}

impl SnowflakeTwitterId {
    pub const RESERVED_BITS: u64 = 1;
    pub const TIMESTAMP_BITS: u64 = 41;
    pub const MACHINE_ID_BITS: u64 = 10;
    pub const SEQUENCE_BITS: u64 = 12;
    pub const SEQUENCE_SHIFT: u64 = 0;
    pub const MACHINE_ID_SHIFT: u64 = 12;
    pub const TIMESTAMP_SHIFT: u64 = 22;
    pub const RESERVED_SHIFT: u64 = 63;
    pub const RESERVED_MASK: u64 = 0x1;
    pub const TIMESTAMP_MASK: u64 = 0x1FF_FFFF_FFFF;
    pub const MACHINE_ID_MASK: u64 = 0x3FF;
    pub const SEQUENCE_MASK: u64 = 0xFFF;

    /// Packs the components, each truncated to the width of its field.
    pub fn from(timestamp: u64, machine_id: u64, sequence: u64) -> (r: Self)
        ensures
            r.spec_raw() == ((timestamp & 0x1FF_FFFF_FFFF) << 22u64) | ((machine_id & 0x3FF) << 12u64) | (sequence & 0xFFF),
    {
        let t = (timestamp & 0x1FF_FFFF_FFFF) << 22u64;
        let m = (machine_id & 0x3FF) << 12u64;
        let s = sequence & 0xFFF;
        SnowflakeTwitterId { id: t | m | s }
    }
}

impl Id for SnowflakeTwitterId {
    type Ty = u64;

    closed spec fn spec_raw(&self) -> u64 {
        self.id
    }

    proof fn lemma_raw_injective(a: Self, b: Self) {
    }

    fn to_raw(&self) -> (r: u64) {
        self.id
    }

    fn from_raw(raw: u64) -> (r: Self) {
        SnowflakeTwitterId { id: raw }
    }
}

impl SnowflakeId for SnowflakeTwitterId {
    closed spec fn spec_timestamp(&self) -> nat {
        ((self.id >> 22u64) & 0x1FF_FFFF_FFFF) as nat
    }

    closed spec fn spec_machine_id(&self) -> nat {
        ((self.id >> 12u64) & 0x3FF) as nat
    }

    closed spec fn spec_sequence(&self) -> nat {
        (self.id & 0xFFF) as nat
    }

    open spec fn spec_max_timestamp() -> nat {
        0x1FF_FFFF_FFFF
    }

    open spec fn spec_max_machine_id() -> nat {
        0x3FF
    }

    open spec fn spec_max_sequence() -> nat {
        0xFFF
    }

    closed spec fn spec_is_valid(&self) -> bool {
        self.id & 0x8000_0000_0000_0000 == 0
    }

    proof fn lemma_layout(self) {
        let x = self.id;
        lemma_twitter_bits(x, 0, 0, 0);
        assert(Self::spec_max_timestamp() == 0x1FF_FFFF_FFFF);
        assert(Self::spec_max_machine_id() == 0x3FF);
        assert(Self::spec_max_sequence() == 0xFFF);
        assert(<u64 as IdScalar>::spec_max() == u64::MAX);
        let t = self.spec_timestamp();
        let m = self.spec_machine_id();
        assert(t <= 0x1FF_FFFF_FFFF);
        assert(m <= 0x3FF);
        assert(self.spec_sequence() <= 0xFFF);
        assert(self.spec_raw().as_nat() == x as nat);
        assert((t * (0x3FF + 1) + m) * (0xFFF + 1) == t * 0x40_0000 + m * 0x1000)
            by (nonlinear_arith);
        assert(self.spec_is_valid() <==> x as nat == t * 0x40_0000 + m * 0x1000
            + self.spec_sequence());
    }

    fn timestamp(&self) -> (r: u64) {
        let r = (self.id >> 22u64) & 0x1FF_FFFF_FFFF;
        assert(r.as_nat() == self.spec_timestamp());
        r
    }

    fn max_timestamp() -> (r: u64) {
        let r: u64 = 0x1FF_FFFF_FFFF;
        assert(r.as_nat() == Self::spec_max_timestamp());
        r
    }

    fn machine_id(&self) -> (r: u64) {
        let r = (self.id >> 12u64) & 0x3FF;
        assert(r.as_nat() == self.spec_machine_id());
        r
    }

    fn max_machine_id() -> (r: u64) {
        let r: u64 = 0x3FF;
        assert(r.as_nat() == Self::spec_max_machine_id());
        r
    }

    fn sequence(&self) -> (r: u64) {
        let r = self.id & 0xFFF;
        assert(r.as_nat() == self.spec_sequence());
        r
    }

    fn max_sequence() -> (r: u64) {
        let r: u64 = 0xFFF;
        assert(r.as_nat() == Self::spec_max_sequence());
        r
    }

    fn from_components(timestamp: u64, machine_id: u64, sequence: u64) -> (r: Self) {
        proof {
            lemma_twitter_bits(0, timestamp, machine_id, sequence);
        }
        Self::from(timestamp, machine_id, sequence)
    }

    fn is_valid(&self) -> (r: bool) {
        self.id & 0x8000_0000_0000_0000 == 0
    }

    fn into_valid(self) -> (r: Self) {
        proof {
            lemma_twitter_bits(self.id, 0, 0, 0);
        }
        SnowflakeTwitterId { id: self.id & 0x7FFF_FFFF_FFFF_FFFF }
    }
}

/// A 64-bit Snowflake ID using the Discord layout: a 42-bit timestamp
/// (milliseconds since the Discord epoch), a 10-bit machine ID and a 12-bit
/// sequence, most significant first.
#[derive(Clone, Copy, PartialEq, Eq, Structural, PartialOrd, Ord, Hash, Debug)]
pub struct SnowflakeDiscordId {
    id: u64,
}

proof fn lemma_discord_bits(x: u64, t: u64, m: u64, s: u64)
    by (bit_vector)
    ensures
        (((((t & 0x3FF_FFFF_FFFF) << 22u64) | ((m & 0x3FF) << 12u64) | (s & 0xFFF)) >> 22u64) & 0x3FF_FFFF_FFFF) == t & 0x3FF_FFFF_FFFF,
        (((((t & 0x3FF_FFFF_FFFF) << 22u64) | ((m & 0x3FF) << 12u64) | (s & 0xFFF)) >> 12u64) & 0x3FF) == m & 0x3FF,
        ((((t & 0x3FF_FFFF_FFFF) << 22u64) | ((m & 0x3FF) << 12u64) | (s & 0xFFF)) & 0xFFF) == s & 0xFFF,
        (((t & 0x3FF_FFFF_FFFF) << 22u64) | ((m & 0x3FF) << 12u64) | (s & 0xFFF)) & 0x0 == 0,
        t & 0x3FF_FFFF_FFFF == t % 0x400_0000_0000,
        m & 0x3FF == m % 0x400,
        s & 0xFFF == s % 0x1000,
        ((x >> 22u64) & 0x3FF_FFFF_FFFF) <= 0x3FF_FFFF_FFFF,
        ((x >> 12u64) & 0x3FF) <= 0x3FF,
        (x & 0xFFF) <= 0xFFF,
        (x & 0x0 == 0) == (x == ((x >> 22u64) & 0x3FF_FFFF_FFFF) * 0x40_0000 + ((x >> 12u64) & 0x3FF) * 0x1000 + (x & 0xFFF)),
        (x & 0xFFFF_FFFF_FFFF_FFFF) & 0x0 == 0,
        (((x & 0xFFFF_FFFF_FFFF_FFFF) >> 22u64) & 0x3FF_FFFF_FFFF) == ((x >> 22u64) & 0x3FF_FFFF_FFFF),
        (((x & 0xFFFF_FFFF_FFFF_FFFF) >> 12u64) & 0x3FF) == ((x >> 12u64) & 0x3FF),
        ((x & 0xFFFF_FFFF_FFFF_FFFF) & 0xFFF) == (x & 0xFFF),
{
}

impl SnowflakeDiscordId {
    pub const RESERVED_BITS: u64 = 0;
    pub const TIMESTAMP_BITS: u64 = 42;
    pub const MACHINE_ID_BITS: u64 = 10;
    pub const SEQUENCE_BITS: u64 = 12;
    pub const SEQUENCE_SHIFT: u64 = 0;
    pub const MACHINE_ID_SHIFT: u64 = 12;
    pub const TIMESTAMP_SHIFT: u64 = 22;
    pub const RESERVED_SHIFT: u64 = 64;
    pub const RESERVED_MASK: u64 = 0x0;
    pub const TIMESTAMP_MASK: u64 = 0x3FF_FFFF_FFFF;
    pub const MACHINE_ID_MASK: u64 = 0x3FF;
    pub const SEQUENCE_MASK: u64 = 0xFFF;

    /// Packs the components, each truncated to the width of its field.
    pub fn from(timestamp: u64, machine_id: u64, sequence: u64) -> (r: Self)
        ensures
            r.spec_raw() == ((timestamp & 0x3FF_FFFF_FFFF) << 22u64) | ((machine_id & 0x3FF) << 12u64) | (sequence & 0xFFF),
    {
        let t = (timestamp & 0x3FF_FFFF_FFFF) << 22u64;
        let m = (machine_id & 0x3FF) << 12u64;
        let s = sequence & 0xFFF;
        SnowflakeDiscordId { id: t | m | s }
    }
}

impl Id for SnowflakeDiscordId {
    type Ty = u64;

    closed spec fn spec_raw(&self) -> u64 {
        self.id
    }

    proof fn lemma_raw_injective(a: Self, b: Self) {
    }

    fn to_raw(&self) -> (r: u64) {
        self.id
    }

    fn from_raw(raw: u64) -> (r: Self) {
        SnowflakeDiscordId { id: raw }
    }
}

impl SnowflakeId for SnowflakeDiscordId {
    closed spec fn spec_timestamp(&self) -> nat {
        ((self.id >> 22u64) & 0x3FF_FFFF_FFFF) as nat
    }

    closed spec fn spec_machine_id(&self) -> nat {
        ((self.id >> 12u64) & 0x3FF) as nat
    }

    closed spec fn spec_sequence(&self) -> nat {
        (self.id & 0xFFF) as nat
    }

    open spec fn spec_max_timestamp() -> nat {
        0x3FF_FFFF_FFFF
    }

    open spec fn spec_max_machine_id() -> nat {
        0x3FF
    }

    open spec fn spec_max_sequence() -> nat {
        0xFFF
    }

    closed spec fn spec_is_valid(&self) -> bool {
        self.id & 0x0 == 0
    }

    proof fn lemma_layout(self) {
        let x = self.id;
        lemma_discord_bits(x, 0, 0, 0);
        assert(Self::spec_max_timestamp() == 0x3FF_FFFF_FFFF);
        assert(Self::spec_max_machine_id() == 0x3FF);
        assert(Self::spec_max_sequence() == 0xFFF);
        assert(<u64 as IdScalar>::spec_max() == u64::MAX);
        let t = self.spec_timestamp();
        let m = self.spec_machine_id();
        assert(t <= 0x3FF_FFFF_FFFF);
        assert(m <= 0x3FF);
        assert(self.spec_sequence() <= 0xFFF);
        assert(self.spec_raw().as_nat() == x as nat);
        assert((t * (0x3FF + 1) + m) * (0xFFF + 1) == t * 0x40_0000 + m * 0x1000)
            by (nonlinear_arith);
        assert(self.spec_is_valid() <==> x as nat == t * 0x40_0000 + m * 0x1000
            + self.spec_sequence());
    }

    fn timestamp(&self) -> (r: u64) {
        let r = (self.id >> 22u64) & 0x3FF_FFFF_FFFF;
        assert(r.as_nat() == self.spec_timestamp());
        r
    }

    fn max_timestamp() -> (r: u64) {
        let r: u64 = 0x3FF_FFFF_FFFF;
        assert(r.as_nat() == Self::spec_max_timestamp());
        r
    }

    fn machine_id(&self) -> (r: u64) {
        let r = (self.id >> 12u64) & 0x3FF;
        assert(r.as_nat() == self.spec_machine_id());
        r
    }

    fn max_machine_id() -> (r: u64) {
        let r: u64 = 0x3FF;
        assert(r.as_nat() == Self::spec_max_machine_id());
        r
    }

    fn sequence(&self) -> (r: u64) {
        let r = self.id & 0xFFF;
        assert(r.as_nat() == self.spec_sequence());
        r
    }

    fn max_sequence() -> (r: u64) {
        let r: u64 = 0xFFF;
        assert(r.as_nat() == Self::spec_max_sequence());
        r
    }

    fn from_components(timestamp: u64, machine_id: u64, sequence: u64) -> (r: Self) {
        proof {
            lemma_discord_bits(0, timestamp, machine_id, sequence);
        }
        Self::from(timestamp, machine_id, sequence)
    }

    fn is_valid(&self) -> (r: bool) {
        self.id & 0x0 == 0
    }

    fn into_valid(self) -> (r: Self) {
        proof {
            lemma_discord_bits(self.id, 0, 0, 0);
        }
        SnowflakeDiscordId { id: self.id & 0xFFFF_FFFF_FFFF_FFFF }
    }
}

/// A 64-bit Snowflake ID using the Mastodon layout: a 48-bit timestamp
/// (milliseconds since the Mastodon epoch) and a 16-bit sequence; there is no
/// machine ID, which always reads as zero.
#[derive(Clone, Copy, PartialEq, Eq, Structural, PartialOrd, Ord, Hash, Debug)]
pub struct SnowflakeMastodonId {
    id: u64,
}

proof fn lemma_mastodon_bits(x: u64, t: u64, m: u64, s: u64)
    by (bit_vector)
    ensures
        (((((t & 0xFFFF_FFFF_FFFF) << 16u64) | ((m & 0x0) << 16u64) | (s & 0xFFFF)) >> 16u64) & 0xFFFF_FFFF_FFFF) == t & 0xFFFF_FFFF_FFFF,
        (((((t & 0xFFFF_FFFF_FFFF) << 16u64) | ((m & 0x0) << 16u64) | (s & 0xFFFF)) >> 16u64) & 0x0) == m & 0x0,
        ((((t & 0xFFFF_FFFF_FFFF) << 16u64) | ((m & 0x0) << 16u64) | (s & 0xFFFF)) & 0xFFFF) == s & 0xFFFF,
        (((t & 0xFFFF_FFFF_FFFF) << 16u64) | ((m & 0x0) << 16u64) | (s & 0xFFFF)) & 0x0 == 0,
        t & 0xFFFF_FFFF_FFFF == t % 0x1_0000_0000_0000,
        m & 0x0 == m % 0x1,
        s & 0xFFFF == s % 0x1_0000,
        ((x >> 16u64) & 0xFFFF_FFFF_FFFF) <= 0xFFFF_FFFF_FFFF,
        ((x >> 16u64) & 0x0) <= 0x0,
        (x & 0xFFFF) <= 0xFFFF,
        (x & 0x0 == 0) == (x == ((x >> 16u64) & 0xFFFF_FFFF_FFFF) * 0x1_0000 + ((x >> 16u64) & 0x0) * 0x1_0000 + (x & 0xFFFF)),
        (x & 0xFFFF_FFFF_FFFF_FFFF) & 0x0 == 0,
        (((x & 0xFFFF_FFFF_FFFF_FFFF) >> 16u64) & 0xFFFF_FFFF_FFFF) == ((x >> 16u64) & 0xFFFF_FFFF_FFFF),
        (((x & 0xFFFF_FFFF_FFFF_FFFF) >> 16u64) & 0x0) == ((x >> 16u64) & 0x0),
        ((x & 0xFFFF_FFFF_FFFF_FFFF) & 0xFFFF) == (x & 0xFFFF),
{
}

impl SnowflakeMastodonId {
    pub const RESERVED_BITS: u64 = 0;
    pub const TIMESTAMP_BITS: u64 = 48;
    pub const MACHINE_ID_BITS: u64 = 0;
    pub const SEQUENCE_BITS: u64 = 16;
    pub const SEQUENCE_SHIFT: u64 = 0;
    pub const MACHINE_ID_SHIFT: u64 = 16;
    pub const TIMESTAMP_SHIFT: u64 = 16;
    pub const RESERVED_SHIFT: u64 = 64;
    pub const RESERVED_MASK: u64 = 0x0;
    pub const TIMESTAMP_MASK: u64 = 0xFFFF_FFFF_FFFF;
    pub const MACHINE_ID_MASK: u64 = 0x0;
    pub const SEQUENCE_MASK: u64 = 0xFFFF;

    /// Packs the components, each truncated to the width of its field.
    pub fn from(timestamp: u64, machine_id: u64, sequence: u64) -> (r: Self)
        ensures
            r.spec_raw() == ((timestamp & 0xFFFF_FFFF_FFFF) << 16u64) | ((machine_id & 0x0) << 16u64) | (sequence & 0xFFFF),
    {
        let t = (timestamp & 0xFFFF_FFFF_FFFF) << 16u64;
        let m = (machine_id & 0x0) << 16u64;
        let s = sequence & 0xFFFF;
        SnowflakeMastodonId { id: t | m | s }
    }
}

impl Id for SnowflakeMastodonId {
    type Ty = u64;

    closed spec fn spec_raw(&self) -> u64 {
        self.id
    }

    proof fn lemma_raw_injective(a: Self, b: Self) {
    }

    fn to_raw(&self) -> (r: u64) {
        self.id
    }

    fn from_raw(raw: u64) -> (r: Self) {
        SnowflakeMastodonId { id: raw }
    }
}

impl SnowflakeId for SnowflakeMastodonId {
    closed spec fn spec_timestamp(&self) -> nat {
        ((self.id >> 16u64) & 0xFFFF_FFFF_FFFF) as nat
    }

    closed spec fn spec_machine_id(&self) -> nat {
        ((self.id >> 16u64) & 0x0) as nat
    }

    closed spec fn spec_sequence(&self) -> nat {
        (self.id & 0xFFFF) as nat
    }

    open spec fn spec_max_timestamp() -> nat {
        0xFFFF_FFFF_FFFF
    }

    open spec fn spec_max_machine_id() -> nat {
        0x0
    }

    open spec fn spec_max_sequence() -> nat {
        0xFFFF
    }

    closed spec fn spec_is_valid(&self) -> bool {
        self.id & 0x0 == 0
    }

    proof fn lemma_layout(self) {
        let x = self.id;
        lemma_mastodon_bits(x, 0, 0, 0);
        assert(Self::spec_max_timestamp() == 0xFFFF_FFFF_FFFF);
        assert(Self::spec_max_machine_id() == 0x0);
        assert(Self::spec_max_sequence() == 0xFFFF);
        assert(<u64 as IdScalar>::spec_max() == u64::MAX);
        let t = self.spec_timestamp();
        let m = self.spec_machine_id();
        assert(t <= 0xFFFF_FFFF_FFFF);
        assert(m <= 0x0);
        assert(self.spec_sequence() <= 0xFFFF);
        assert(self.spec_raw().as_nat() == x as nat);
        assert((t * (0x0 + 1) + m) * (0xFFFF + 1) == t * 0x1_0000 + m * 0x1_0000)
            by (nonlinear_arith);
        assert(self.spec_is_valid() <==> x as nat == t * 0x1_0000 + m * 0x1_0000
            + self.spec_sequence());
    }

    fn timestamp(&self) -> (r: u64) {
        let r = (self.id >> 16u64) & 0xFFFF_FFFF_FFFF;
        assert(r.as_nat() == self.spec_timestamp());
        r
    }

    fn max_timestamp() -> (r: u64) {
        let r: u64 = 0xFFFF_FFFF_FFFF;
        assert(r.as_nat() == Self::spec_max_timestamp());
        r
    }

    fn machine_id(&self) -> (r: u64) {
        let r = (self.id >> 16u64) & 0x0;
        assert(r.as_nat() == self.spec_machine_id());
        r
    }

    fn max_machine_id() -> (r: u64) {
        let r: u64 = 0x0;
        assert(r.as_nat() == Self::spec_max_machine_id());
        r
    }

    fn sequence(&self) -> (r: u64) {
        let r = self.id & 0xFFFF;
        assert(r.as_nat() == self.spec_sequence());
        r
    }

    fn max_sequence() -> (r: u64) {
        let r: u64 = 0xFFFF;
        assert(r.as_nat() == Self::spec_max_sequence());
        r
    }

    fn from_components(timestamp: u64, machine_id: u64, sequence: u64) -> (r: Self) {
        proof {
            lemma_mastodon_bits(0, timestamp, machine_id, sequence);
        }
        Self::from(timestamp, machine_id, sequence)
    }

    fn is_valid(&self) -> (r: bool) {
        self.id & 0x0 == 0
    }

    fn into_valid(self) -> (r: Self) {
        proof {
            lemma_mastodon_bits(self.id, 0, 0, 0);
        }
        SnowflakeMastodonId { id: self.id & 0xFFFF_FFFF_FFFF_FFFF }
    }
}

/// A 64-bit Snowflake ID using the Instagram layout: a 41-bit timestamp
/// (milliseconds since the Instagram epoch), a 13-bit machine ID and a 10-bit
/// sequence, most significant first.
#[derive(Clone, Copy, PartialEq, Eq, Structural, PartialOrd, Ord, Hash, Debug)]
pub struct SnowflakeInstagramId {
    id: u64,
}

proof fn lemma_instagram_bits(x: u64, t: u64, m: u64, s: u64)
    by (bit_vector)
    ensures
        (((((t & 0x1FF_FFFF_FFFF) << 23u64) | ((m & 0x1FFF) << 10u64) | (s & 0x3FF)) >> 23u64) & 0x1FF_FFFF_FFFF) == t & 0x1FF_FFFF_FFFF,
        (((((t & 0x1FF_FFFF_FFFF) << 23u64) | ((m & 0x1FFF) << 10u64) | (s & 0x3FF)) >> 10u64) & 0x1FFF) == m & 0x1FFF,
        ((((t & 0x1FF_FFFF_FFFF) << 23u64) | ((m & 0x1FFF) << 10u64) | (s & 0x3FF)) & 0x3FF) == s & 0x3FF,
        (((t & 0x1FF_FFFF_FFFF) << 23u64) | ((m & 0x1FFF) << 10u64) | (s & 0x3FF)) & 0x0 == 0,
        t & 0x1FF_FFFF_FFFF == t % 0x200_0000_0000,
        m & 0x1FFF == m % 0x2000,
        s & 0x3FF == s % 0x400,
        ((x >> 23u64) & 0x1FF_FFFF_FFFF) <= 0x1FF_FFFF_FFFF,
        ((x >> 10u64) & 0x1FFF) <= 0x1FFF,
        (x & 0x3FF) <= 0x3FF,
        (x & 0x0 == 0) == (x == ((x >> 23u64) & 0x1FF_FFFF_FFFF) * 0x80_0000 + ((x >> 10u64) & 0x1FFF) * 0x400 + (x & 0x3FF)),
        (x & 0xFFFF_FFFF_FFFF_FFFF) & 0x0 == 0,
        (((x & 0xFFFF_FFFF_FFFF_FFFF) >> 23u64) & 0x1FF_FFFF_FFFF) == ((x >> 23u64) & 0x1FF_FFFF_FFFF),
        (((x & 0xFFFF_FFFF_FFFF_FFFF) >> 10u64) & 0x1FFF) == ((x >> 10u64) & 0x1FFF),
        ((x & 0xFFFF_FFFF_FFFF_FFFF) & 0x3FF) == (x & 0x3FF),
{
}

impl SnowflakeInstagramId {
    pub const RESERVED_BITS: u64 = 0;
    pub const TIMESTAMP_BITS: u64 = 41;
    pub const MACHINE_ID_BITS: u64 = 13;
    pub const SEQUENCE_BITS: u64 = 10;
    pub const SEQUENCE_SHIFT: u64 = 0;
    pub const MACHINE_ID_SHIFT: u64 = 10;
    pub const TIMESTAMP_SHIFT: u64 = 23;
    pub const RESERVED_SHIFT: u64 = 64;
    pub const RESERVED_MASK: u64 = 0x0;
    pub const TIMESTAMP_MASK: u64 = 0x1FF_FFFF_FFFF;
    pub const MACHINE_ID_MASK: u64 = 0x1FFF;
    pub const SEQUENCE_MASK: u64 = 0x3FF;

    /// Packs the components, each truncated to the width of its field.
    pub fn from(timestamp: u64, machine_id: u64, sequence: u64) -> (r: Self)
        ensures
            r.spec_raw() == ((timestamp & 0x1FF_FFFF_FFFF) << 23u64) | ((machine_id & 0x1FFF) << 10u64) | (sequence & 0x3FF),
    {
        let t = (timestamp & 0x1FF_FFFF_FFFF) << 23u64;
        let m = (machine_id & 0x1FFF) << 10u64;
        let s = sequence & 0x3FF;
        SnowflakeInstagramId { id: t | m | s }
    }
}

impl Id for SnowflakeInstagramId {
    type Ty = u64;

    closed spec fn spec_raw(&self) -> u64 {
        self.id
    }

    proof fn lemma_raw_injective(a: Self, b: Self) {
    }

    fn to_raw(&self) -> (r: u64) {
        self.id
    }

    fn from_raw(raw: u64) -> (r: Self) {
        SnowflakeInstagramId { id: raw }
    }
}

impl SnowflakeId for SnowflakeInstagramId {
    closed spec fn spec_timestamp(&self) -> nat {
        ((self.id >> 23u64) & 0x1FF_FFFF_FFFF) as nat
    }

    closed spec fn spec_machine_id(&self) -> nat {
        ((self.id >> 10u64) & 0x1FFF) as nat
    }

    closed spec fn spec_sequence(&self) -> nat {
        (self.id & 0x3FF) as nat
    }

    open spec fn spec_max_timestamp() -> nat {
        0x1FF_FFFF_FFFF
    }

    open spec fn spec_max_machine_id() -> nat {
        0x1FFF
    }

    open spec fn spec_max_sequence() -> nat {
        0x3FF
    }

    closed spec fn spec_is_valid(&self) -> bool {
        self.id & 0x0 == 0
    }

    proof fn lemma_layout(self) {
        let x = self.id;
        lemma_instagram_bits(x, 0, 0, 0);
        assert(Self::spec_max_timestamp() == 0x1FF_FFFF_FFFF);
        assert(Self::spec_max_machine_id() == 0x1FFF);
        assert(Self::spec_max_sequence() == 0x3FF);
        assert(<u64 as IdScalar>::spec_max() == u64::MAX);
        let t = self.spec_timestamp();
        let m = self.spec_machine_id();
        assert(t <= 0x1FF_FFFF_FFFF);
        assert(m <= 0x1FFF);
        assert(self.spec_sequence() <= 0x3FF);
        assert(self.spec_raw().as_nat() == x as nat);
        assert((t * (0x1FFF + 1) + m) * (0x3FF + 1) == t * 0x80_0000 + m * 0x400)
            by (nonlinear_arith);
        assert(self.spec_is_valid() <==> x as nat == t * 0x80_0000 + m * 0x400
            + self.spec_sequence());
    }

    fn timestamp(&self) -> (r: u64) {
        let r = (self.id >> 23u64) & 0x1FF_FFFF_FFFF;
        assert(r.as_nat() == self.spec_timestamp());
        r
    }

    fn max_timestamp() -> (r: u64) {
        let r: u64 = 0x1FF_FFFF_FFFF;
        assert(r.as_nat() == Self::spec_max_timestamp());
        r
    }

    fn machine_id(&self) -> (r: u64) {
        let r = (self.id >> 10u64) & 0x1FFF;
        assert(r.as_nat() == self.spec_machine_id());
        r
    }

    fn max_machine_id() -> (r: u64) {
        let r: u64 = 0x1FFF;
        assert(r.as_nat() == Self::spec_max_machine_id());
        r
    }

    fn sequence(&self) -> (r: u64) {
        let r = self.id & 0x3FF;
        assert(r.as_nat() == self.spec_sequence());
        r
    }

    fn max_sequence() -> (r: u64) {
        let r: u64 = 0x3FF;
        assert(r.as_nat() == Self::spec_max_sequence());
        r
    }

    fn from_components(timestamp: u64, machine_id: u64, sequence: u64) -> (r: Self) {
        proof {
            lemma_instagram_bits(0, timestamp, machine_id, sequence);
        }
        Self::from(timestamp, machine_id, sequence)
    }

    fn is_valid(&self) -> (r: bool) {
        self.id & 0x0 == 0
    }

    fn into_valid(self) -> (r: Self) {
        proof {
            lemma_instagram_bits(self.id, 0, 0, 0);
        }
        SnowflakeInstagramId { id: self.id & 0xFFFF_FFFF_FFFF_FFFF }
    }
}

/// A 128-bit Snowflake ID: 40 reserved bits, a 48-bit timestamp, a 20-bit
/// machine ID and a 20-bit sequence, most significant first.
#[derive(Clone, Copy, PartialEq, Eq, Structural, PartialOrd, Ord, Hash, Debug)]
pub struct SnowflakeLongId {
    id: u128,
}

proof fn lemma_long_bits(x: u128, t: u128, m: u128, s: u128)
    by (bit_vector)
    ensures
        (((((t & 0xFFFF_FFFF_FFFF) << 40u128) | ((m & 0xF_FFFF) << 20u128) | (s & 0xF_FFFF)) >> 40u128) & 0xFFFF_FFFF_FFFF) == t & 0xFFFF_FFFF_FFFF,
        (((((t & 0xFFFF_FFFF_FFFF) << 40u128) | ((m & 0xF_FFFF) << 20u128) | (s & 0xF_FFFF)) >> 20u128) & 0xF_FFFF) == m & 0xF_FFFF,
        ((((t & 0xFFFF_FFFF_FFFF) << 40u128) | ((m & 0xF_FFFF) << 20u128) | (s & 0xF_FFFF)) & 0xF_FFFF) == s & 0xF_FFFF,
        (((t & 0xFFFF_FFFF_FFFF) << 40u128) | ((m & 0xF_FFFF) << 20u128) | (s & 0xF_FFFF)) & 0xFFFF_FFFF_FF00_0000_0000_0000_0000_0000 == 0,
        t & 0xFFFF_FFFF_FFFF == t % 0x1_0000_0000_0000,
        m & 0xF_FFFF == m % 0x10_0000,
        s & 0xF_FFFF == s % 0x10_0000,
        ((x >> 40u128) & 0xFFFF_FFFF_FFFF) <= 0xFFFF_FFFF_FFFF,
        ((x >> 20u128) & 0xF_FFFF) <= 0xF_FFFF,
        (x & 0xF_FFFF) <= 0xF_FFFF,
        (x & 0xFFFF_FFFF_FF00_0000_0000_0000_0000_0000 == 0) == (x == ((x >> 40u128) & 0xFFFF_FFFF_FFFF) * 0x100_0000_0000 + ((x >> 20u128) & 0xF_FFFF) * 0x10_0000 + (x & 0xF_FFFF)),
        (x & 0xFF_FFFF_FFFF_FFFF_FFFF_FFFF) & 0xFFFF_FFFF_FF00_0000_0000_0000_0000_0000 == 0,
        (((x & 0xFF_FFFF_FFFF_FFFF_FFFF_FFFF) >> 40u128) & 0xFFFF_FFFF_FFFF) == ((x >> 40u128) & 0xFFFF_FFFF_FFFF),
        (((x & 0xFF_FFFF_FFFF_FFFF_FFFF_FFFF) >> 20u128) & 0xF_FFFF) == ((x >> 20u128) & 0xF_FFFF),
        ((x & 0xFF_FFFF_FFFF_FFFF_FFFF_FFFF) & 0xF_FFFF) == (x & 0xF_FFFF),
{
}

impl SnowflakeLongId {
    pub const RESERVED_BITS: u128 = 40;
    pub const TIMESTAMP_BITS: u128 = 48;
    pub const MACHINE_ID_BITS: u128 = 20;
    pub const SEQUENCE_BITS: u128 = 20;
    pub const SEQUENCE_SHIFT: u128 = 0;
    pub const MACHINE_ID_SHIFT: u128 = 20;
    pub const TIMESTAMP_SHIFT: u128 = 40;
    pub const RESERVED_SHIFT: u128 = 88;
    pub const RESERVED_MASK: u128 = 0xFF_FFFF_FFFF;
    pub const TIMESTAMP_MASK: u128 = 0xFFFF_FFFF_FFFF;
    pub const MACHINE_ID_MASK: u128 = 0xF_FFFF;
    pub const SEQUENCE_MASK: u128 = 0xF_FFFF;

    /// Packs the components, each truncated to the width of its field.
    pub fn from(timestamp: u128, machine_id: u128, sequence: u128) -> (r: Self)
        ensures
            r.spec_raw() == ((timestamp & 0xFFFF_FFFF_FFFF) << 40u128) | ((machine_id & 0xF_FFFF) << 20u128) | (sequence & 0xF_FFFF),
    {
        let t = (timestamp & 0xFFFF_FFFF_FFFF) << 40u128;
        let m = (machine_id & 0xF_FFFF) << 20u128;
        let s = sequence & 0xF_FFFF;
        SnowflakeLongId { id: t | m | s }
    }
}

impl Id for SnowflakeLongId {
    type Ty = u128;

    closed spec fn spec_raw(&self) -> u128 {
        self.id
    }

    proof fn lemma_raw_injective(a: Self, b: Self) {
    }

    fn to_raw(&self) -> (r: u128) {
        self.id
    }

    fn from_raw(raw: u128) -> (r: Self) {
        SnowflakeLongId { id: raw }
    }
}

impl SnowflakeId for SnowflakeLongId {
    closed spec fn spec_timestamp(&self) -> nat {
        ((self.id >> 40u128) & 0xFFFF_FFFF_FFFF) as nat
    }

    closed spec fn spec_machine_id(&self) -> nat {
        ((self.id >> 20u128) & 0xF_FFFF) as nat
    }

    closed spec fn spec_sequence(&self) -> nat {
        (self.id & 0xF_FFFF) as nat
    }

    open spec fn spec_max_timestamp() -> nat {
        0xFFFF_FFFF_FFFF
    }

    open spec fn spec_max_machine_id() -> nat {
        0xF_FFFF
    }

    open spec fn spec_max_sequence() -> nat {
        0xF_FFFF
    }

    closed spec fn spec_is_valid(&self) -> bool {
        self.id & 0xFFFF_FFFF_FF00_0000_0000_0000_0000_0000 == 0
    }

    proof fn lemma_layout(self) {
        let x = self.id;
        lemma_long_bits(x, 0, 0, 0);
        assert(Self::spec_max_timestamp() == 0xFFFF_FFFF_FFFF);
        assert(Self::spec_max_machine_id() == 0xF_FFFF);
        assert(Self::spec_max_sequence() == 0xF_FFFF);
        assert(<u128 as IdScalar>::spec_max() == u128::MAX);
        let t = self.spec_timestamp();
        let m = self.spec_machine_id();
        assert(t <= 0xFFFF_FFFF_FFFF);
        assert(m <= 0xF_FFFF);
        assert(self.spec_sequence() <= 0xF_FFFF);
        assert(self.spec_raw().as_nat() == x as nat);
        assert((t * (0xF_FFFF + 1) + m) * (0xF_FFFF + 1) == t * 0x100_0000_0000 + m * 0x10_0000)
            by (nonlinear_arith);
        assert(self.spec_is_valid() <==> x as nat == t * 0x100_0000_0000 + m * 0x10_0000
            + self.spec_sequence());
    }

    fn timestamp(&self) -> (r: u128) {
        let r = (self.id >> 40u128) & 0xFFFF_FFFF_FFFF;
        assert(r.as_nat() == self.spec_timestamp());
        r
    }

    fn max_timestamp() -> (r: u128) {
        let r: u128 = 0xFFFF_FFFF_FFFF;
        assert(r.as_nat() == Self::spec_max_timestamp());
        r
    }

    fn machine_id(&self) -> (r: u128) {
        let r = (self.id >> 20u128) & 0xF_FFFF;
        assert(r.as_nat() == self.spec_machine_id());
        r
    }

    fn max_machine_id() -> (r: u128) {
        let r: u128 = 0xF_FFFF;
        assert(r.as_nat() == Self::spec_max_machine_id());
        r
    }

    fn sequence(&self) -> (r: u128) {
        let r = self.id & 0xF_FFFF;
        assert(r.as_nat() == self.spec_sequence());
        r
    }

    fn max_sequence() -> (r: u128) {
        let r: u128 = 0xF_FFFF;
        assert(r.as_nat() == Self::spec_max_sequence());
        r
    }

    fn from_components(timestamp: u128, machine_id: u128, sequence: u128) -> (r: Self) {
        proof {
            lemma_long_bits(0, timestamp, machine_id, sequence);
        }
        Self::from(timestamp, machine_id, sequence)
    }

    fn is_valid(&self) -> (r: bool) {
        self.id & 0xFFFF_FFFF_FF00_0000_0000_0000_0000_0000 == 0
    }

    fn into_valid(self) -> (r: Self) {
        proof {
            lemma_long_bits(self.id, 0, 0, 0);
        }
        SnowflakeLongId { id: self.id & 0xFF_FFFF_FFFF_FFFF_FFFF_FFFF }
    }
}

} // verus!

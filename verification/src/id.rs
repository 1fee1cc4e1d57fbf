//! Identifier generation: unique 64-bit request identifiers for one
//! process instance.
//!
//! An identifier is the bitwise-or of a fixed high-order instance prefix
//! (the instance's member id shifted into the top bits) and a low-order
//! counter masked to 48 bits. The counter is seeded from a coarse
//! millisecond timestamp taken at construction and incremented on every
//! call, so identifiers from one generator are pairwise distinct until the
//! counter wraps its 48-bit window — an accepted limitation, not a failure.

use vstd::prelude::*;

verus! {

/// Mask selecting the counter portion (the low 48 bits) of an identifier.
pub const SUFFIX_MASK: u64 = 0x0000_FFFF_FFFF_FFFF;

/// The identifier minted from an instance prefix and a counter value.
pub open spec fn id_of(prefix: u64, suffix: u64) -> u64 {
    prefix | (suffix & SUFFIX_MASK)
}

/// The counter seed derived from a coarse millisecond timestamp: the low
/// 40 bits of the timestamp, shifted left by one byte.
pub open spec fn seed_of(start_ms: u64) -> u64 {
    ((u64::MAX >> 24) & start_ms) << 8
}

/// The counter value after one issuance: incremented, wrapping silently at
/// the 64-bit boundary.
pub open spec fn bumped(suffix: u64) -> u64 {
    if suffix == u64::MAX {
        0
    } else {
        (suffix + 1) as u64
    }
}

/// Produces unique, monotonically ordered 64-bit request identifiers for
/// the lifetime of one process instance.
pub struct Generator {
    /// The instance prefix, already shifted into the high-order bits.
    pub prefix: u64,
    /// The counter supplying the low-order bits of the next identifier.
    pub suffix: u64,
}

impl Generator {
    /// Builds a generator for the instance identified by `member_id`,
    /// seeding the counter from `start_ms`, a coarse millisecond timestamp.
    pub fn new(member_id: u64, start_ms: u64) -> (g: Generator)
        ensures
            g.prefix == member_id << 48,
            g.prefix & SUFFIX_MASK == 0,
            g.suffix == seed_of(start_ms),
    {
        proof {
            assert((member_id << 48) & SUFFIX_MASK == 0) by (bit_vector);
        }
        let x: u64 = (u64::MAX >> 24) & start_ms;
        let x: u64 = x << 8;
        Generator { prefix: member_id << 48, suffix: x }
    }

    /// Mints the next identifier: the instance prefix combined with the
    /// current counter value, which is then incremented.
    pub fn next(&mut self) -> (id: u64)
        ensures
            id == id_of(old(self).prefix, old(self).suffix),
            final(self).prefix == old(self).prefix,
            final(self).suffix == bumped(old(self).suffix),
    {
        let suffix = self.suffix;
        self.suffix = if suffix == u64::MAX {
            0
        } else {
            suffix + 1
        };
        self.prefix | (suffix & SUFFIX_MASK)
    }
}

/// One generator never repeats an identifier while its counter stays
/// within one 48-bit wrap window: any two counter values fewer than
/// 2^48 apart mint distinct identifiers, so that many consecutive
/// issuances are pairwise distinct.
pub proof fn lemma_ids_distinct_within_window(prefix: u64, s1: u64, s2: u64)
    requires
        prefix & SUFFIX_MASK == 0,
        s1 < s2,
        s2 - s1 < 0x1_0000_0000_0000,
    ensures
        id_of(prefix, s1) != id_of(prefix, s2),
{
    assert((prefix | (s1 & SUFFIX_MASK)) != (prefix | (s2 & SUFFIX_MASK))) by (bit_vector)
        requires
            prefix & SUFFIX_MASK == 0,
            s1 < s2,
            s2 - s1 < 0x1_0000_0000_0000,
    ;
}

/// Two instances whose member ids differ in their low 16 bits never mint
/// the same identifier, whatever their counters hold: uniqueness across
/// instances rests on distinct prefixes, not on clock coordination.
pub proof fn lemma_instances_distinct(m1: u64, m2: u64, s1: u64, s2: u64)
    requires
        m1 & 0xFFFF != m2 & 0xFFFF,
    ensures
        id_of(m1 << 48, s1) != id_of(m2 << 48, s2),
{
    assert(((m1 << 48) | (s1 & SUFFIX_MASK)) != ((m2 << 48) | (s2 & SUFFIX_MASK)))
        by (bit_vector)
        requires
            m1 & 0xFFFF != m2 & 0xFFFF,
    ;
}

} // verus!

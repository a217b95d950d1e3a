//! Sets of reader slots, kept as the bits of one word.

use crate::ring::MAX_READERS;
use vstd::prelude::*;

verus! {

/// Whether `slot` is in the set `mask`.
pub open spec fn holds(mask: u64, slot: int) -> bool {
    0 <= slot < MAX_READERS && (mask >> (slot as u64)) & 1 == 1
}

/// Returns whether `slot` is in the set `mask`.
pub fn contains(mask: u64, slot: u8) -> (member: bool)
    requires
        slot < MAX_READERS,
    ensures
        member == holds(mask, slot as int),
{
    (mask >> (slot as u64)) & 1 == 1
}

/// Returns the set `mask` with `slot` in it.
pub fn with(mask: u64, slot: u8) -> (joined: u64)
    requires
        slot < MAX_READERS,
    ensures
        forall|other: int| #[trigger]
            holds(joined, other) == (holds(mask, other) || other == slot),
{
    let bit: u64 = slot as u64;
    let joined: u64 = mask | (1u64 << bit);
    assert forall|other: int| #[trigger]
        holds(joined, other) == (holds(mask, other) || other == slot) by {
        if 0 <= other < MAX_READERS {
            lemma_set_bit(mask, bit, other as u64);
        }
    }
    joined
}

/// Returns the set `mask` with `slot` left out.
pub fn without(mask: u64, slot: u8) -> (left: u64)
    requires
        slot < MAX_READERS,
    ensures
        forall|other: int| #[trigger]
            holds(left, other) == (holds(mask, other) && other != slot),
{
    let bit: u64 = slot as u64;
    let left: u64 = mask & !(1u64 << bit);
    assert forall|other: int| #[trigger]
        holds(left, other) == (holds(mask, other) && other != slot) by {
        if 0 <= other < MAX_READERS {
            lemma_clear_bit(mask, bit, other as u64);
        }
    }
    left
}

proof fn lemma_set_bit(mask: u64, bit: u64, other: u64)
    by (bit_vector)
    requires
        bit < 64,
        other < 64,
    ensures
        ((mask | (1u64 << bit)) >> other) & 1 == 1 <==> ((mask >> other) & 1 == 1 || other == bit),
{
}

proof fn lemma_clear_bit(mask: u64, bit: u64, other: u64)
    by (bit_vector)
    requires
        bit < 64,
        other < 64,
    ensures
        ((mask & !(1u64 << bit)) >> other) & 1 == 1 <==> ((mask >> other) & 1 == 1 && other != bit),
{
}

/// The word zero is the empty set.
pub proof fn lemma_empty(slot: int)
    ensures
        !holds(0, slot),
{
    if 0 <= slot < MAX_READERS {
        let bit = slot as u64;
        assert((0u64 >> bit) & 1 == 0) by (bit_vector)
            requires
                bit < 64,
        ;
    }
}

/// Two words are equal where they are the same set.
pub proof fn lemma_same_members(left: u64, right: u64)
    requires
        forall|slot: int| 0 <= slot < MAX_READERS ==> holds(left, slot) == #[trigger] holds(right, slot),
    ensures
        left == right,
{
    let differing = left ^ right;
    assert(differing == 0 ==> left == right) by (bit_vector)
        requires
            differing == left ^ right,
    ;
    if differing != 0 {
        vstd::std_specs::bits::axiom_u64_trailing_zeros(differing);
        let bit = vstd::std_specs::bits::u64_trailing_zeros(differing) as u64;
        assert(holds(left, bit as int) == holds(right, bit as int));
        assert(((left >> bit) & 1 == 1) != ((right >> bit) & 1 == 1)) by (bit_vector)
            requires
                differing == left ^ right,
                (differing >> bit) & 1 == 1,
        ;
    }
}

/// A set of slots is the word whose bit number `slot` tells whether the slot is in it: the word
/// with that bit alone holds that slot alone.
pub proof fn law_slots_are_bits(slot: u64, other: u64)
    requires
        slot < 64,
        other < 64,
    ensures
        holds(1u64 << slot, other as int) <==> other == slot,
        !holds(0, other as int),
        holds(u64::MAX, other as int),
{
    assert(((1u64 << slot) >> other) & 1 == 1 <==> other == slot) by (bit_vector)
        requires
            slot < 64,
            other < 64,
    ;
    assert((0xffff_ffff_ffff_ffffu64 >> other) & 1 == 1) by (bit_vector)
        requires
            other < 64,
    ;
    lemma_empty(other as int);
}

} // verus!

//! Arithmetic on wrapping logical positions.
//!
//! A position counts the bytes that have passed through a ring, modulo the range
//! of a `u64`. The byte at a position lives at the position's remainder modulo
//! the capacity, which is a power of two.

use crate::power::lemma_power_divides;
use vstd::arithmetic::power2::is_pow2;
use vstd::prelude::*;

verus! {

/// How many positions there are.
pub open spec fn positions() -> int {
    0x1_0000_0000_0000_0000
}

/// The largest capacity that keeps distances between positions unambiguous.
pub open spec fn largest_capacity() -> int {
    0x8000_0000_0000_0000
}

/// Whether `capacity` can be the capacity of a ring.
pub open spec fn valid_capacity(capacity: int) -> bool {
    is_pow2(capacity) && capacity <= largest_capacity()
}

/// The position that stands for the absolute byte count `count`.
pub open spec fn wrapped(count: int) -> u64 {
    (count % positions()) as u64
}

/// How far `to` lies ahead of `from`.
pub open spec fn spec_distance(from: u64, to: u64) -> int {
    (to - from) % positions()
}

/// Where the byte at `position` lives within the payload.
pub open spec fn spec_offset(position: u64, capacity: int) -> int {
    position as int % capacity
}

/// Returns how far `to` lies ahead of `from`.
pub fn distance(from: u64, to: u64) -> (ahead: u64)
    ensures
        ahead == spec_distance(from, to),
{
    to.wrapping_sub(from)
}

/// Returns the position `amount` bytes after `position`.
pub fn advanced(position: u64, amount: u64) -> (after: u64)
    ensures
        after == wrapped(position + amount),
{
    position.wrapping_add(amount)
}

/// Returns where the byte at `position` lives within a payload of `capacity` bytes.
pub fn offset(position: u64, capacity: usize) -> (index: usize)
    requires
        capacity > 0,
    ensures
        index == spec_offset(position, capacity as int),
        index < capacity,
{
    (position % (capacity as u64)) as usize
}

/// Distances add up, as long as they stay within the range.
pub proof fn lemma_distances_add(from: u64, middle: u64, to: u64)
    requires
        spec_distance(from, middle) + spec_distance(middle, to) < positions(),
    ensures
        spec_distance(from, to) == spec_distance(from, middle) + spec_distance(middle, to),
{
}

/// Distances between wrapped counts are the differences of the counts.
pub proof fn lemma_wrapped_distance(from: int, to: int)
    requires
        0 <= to - from < positions(),
    ensures
        spec_distance(wrapped(from), wrapped(to)) == to - from,
{
}

/// Moving the nearer of two positions on brings them as much closer, and moving the farther one
/// on brings them as much apart.
pub proof fn lemma_moving_changes_distances(from: u64, to: u64, amount: int)
    requires
        0 <= amount < positions(),
    ensures
        amount <= spec_distance(from, to) ==> spec_distance(wrapped(from + amount), to)
            == spec_distance(from, to) - amount,
        spec_distance(from, to) + amount < positions() ==> spec_distance(from, wrapped(to + amount))
            == spec_distance(from, to) + amount,
{
    let apart = spec_distance(from, to);
    assert(apart == if from <= to {
        to - from
    } else {
        to - from + positions()
    });
    assert(wrapped(from + amount) == if from + amount < positions() {
        from + amount
    } else {
        from + amount - positions()
    });
    assert(wrapped(to + amount) == if to + amount < positions() {
        to + amount
    } else {
        to + amount - positions()
    });
}

/// Counting on by the distance to a position arrives at that position.
pub proof fn lemma_count_leads_there(count: int, position: u64)
    ensures
        wrapped(count + spec_distance(wrapped(count), position)) == position,
{
}

/// A wrapped position lives where the absolute count does: wrapping the position
/// does not move its byte.
pub proof fn lemma_wrapping_keeps_offset(count: int, capacity: int)
    requires
        0 <= count,
        valid_capacity(capacity),
    ensures
        spec_offset(wrapped(count), capacity) == count % capacity,
{
    lemma_capacity_divides_positions(capacity);
    let turns = positions() / capacity;
    vstd::arithmetic::div_mod::lemma_fundamental_div_mod(positions(), capacity);
    assert(positions() == capacity * turns);
    assert(turns > 0) by (nonlinear_arith)
        requires
            positions() == capacity * turns,
            capacity > 0,
            positions() > 0,
    ;
    vstd::arithmetic::div_mod::lemma_mod_mod(count, capacity, turns);
}

/// Every ring capacity divides the number of positions.
pub proof fn lemma_capacity_divides_positions(capacity: int)
    requires
        valid_capacity(capacity),
    ensures
        0 < capacity,
        positions() % capacity == 0,
{
    assert(is_pow2(positions())) by {
        vstd::arithmetic::power2::lemma2_to64();
        vstd::arithmetic::power2::lemma_pow2(64);
        vstd::arithmetic::power2::is_pow2_equiv(positions());
        assert(vstd::arithmetic::power::pow(2, 64) == positions());
    }
    reveal(is_pow2);
    lemma_power_divides(capacity, positions());
}

/// Positions count bytes: going on by `amount` and measuring the way gives back `amount`, for
/// every amount below the number of positions, and going there from anywhere measures the same as
/// coming from there.
pub proof fn law_distances_measure_the_way(position: u64, amount: u64, other: u64)
    ensures
        spec_distance(position, wrapped(position + amount)) == amount,
        0 <= spec_distance(position, other) < 0x1_0000_0000_0000_0000,
        wrapped(position + spec_distance(position, other)) == other,
        spec_distance(position, other) == 0 <==> position == other,
        position <= other ==> spec_distance(position, other) == other - position,
        other < position ==> spec_distance(position, other) == other - position
            + 0x1_0000_0000_0000_0000,
        position + amount < 0x1_0000_0000_0000_0000 ==> wrapped(position + amount) == position
            + amount,
        position + amount >= 0x1_0000_0000_0000_0000 ==> wrapped(position + amount) == position
            + amount - 0x1_0000_0000_0000_0000,
{
}

/// The byte after a byte lives one place further, and after the last place of the payload comes
/// the first one, also where the position itself wraps.
pub proof fn law_bytes_live_in_order(position: u64, capacity: int)
    requires
        valid_capacity(capacity),
    ensures
        0 <= spec_offset(position, capacity) < capacity,
        position < capacity ==> spec_offset(position, capacity) == position,
        spec_offset(wrapped(position + 1), capacity) == (if spec_offset(position, capacity) + 1
            == capacity {
            0
        } else {
            spec_offset(position, capacity) + 1
        }),
{
    lemma_capacity_divides_positions(capacity);
    lemma_wrapping_keeps_offset(position + 1, capacity);
    vstd::arithmetic::div_mod::lemma_mod_bound(position as int, capacity);
    vstd::arithmetic::div_mod::lemma_add_mod_noop(position as int, 1, capacity);
    if position < capacity {
        vstd::arithmetic::div_mod::lemma_small_mod(position as nat, capacity as nat);
    }
    let index = position as int % capacity;
    if capacity == 1 {
        assert((position + 1) % 1 == 0);
    } else {
        vstd::arithmetic::div_mod::lemma_small_mod(1, capacity as nat);
        if index + 1 == capacity {
            vstd::arithmetic::div_mod::lemma_mod_self_0(capacity);
        } else {
            vstd::arithmetic::div_mod::lemma_small_mod((index + 1) as nat, capacity as nat);
        }
    }
}

} // verus!

//! What a ring guarantees, whatever its producer and its readers do and however far
//! their observations of each other lag.

use crate::cursor::{advance_outcome, reservation_at};
use crate::error::Error;
use crate::mapping::memory::{overwritten, shown};
use crate::ring::consumer::{readable, ConsumerState};
use crate::ring::position::{
    lemma_capacity_divides_positions, lemma_count_leads_there, lemma_moving_changes_distances,
    lemma_wrapped_distance, lemma_wrapping_keeps_offset, spec_distance, valid_capacity, wrapped,
};
use crate::ring::producer::{writable, ObservedReaders, ProducerState};
use crate::ring::slots::holds;
use crate::ring::MAX_READERS;
use vstd::prelude::*;

verus! {

/// The true state of a ring at one moment.
#[verifier::ext_equal]
pub struct RingState {
    /// The length of the payload.
    pub capacity: int,
    /// Every byte published so far.
    pub history: Seq<u8>,
    /// How many of them each attached reader has released, counted from the first.
    pub released: Map<int, int>,
    /// The bytes of the payload.
    pub payload: Seq<u8>,
}

impl RingState {
    /// How many bytes have been published.
    pub open spec fn published(&self) -> int {
        self.history.len() as int
    }

    /// No reader is ahead of the producer or more than a capacity behind it, and the
    /// payload holds every byte that some reader has yet to release.
    pub open spec fn inv(&self) -> bool {
        &&& valid_capacity(self.capacity)
        &&& self.payload.len() == self.capacity
        &&& forall|slot: int| #[trigger]
            self.released.dom().contains(slot) ==> 0 <= slot < MAX_READERS && 0
                <= self.released[slot] <= self.published() <= self.released[slot] + self.capacity
        &&& forall|slot: int, count: int|
            #![trigger self.released.dom().contains(slot), self.history[count]]
            self.released.dom().contains(slot) && self.released[slot] <= count < self.published()
                ==> self.payload[count % self.capacity] == self.history[count]
    }

    /// The ring without traffic and without readers.
    pub open spec fn initial(payload: Seq<u8>) -> RingState {
        RingState {
            capacity: payload.len() as int,
            history: Seq::empty(),
            released: Map::empty(),
            payload,
        }
    }

    /// The state after the producer wrote `data` at its position and published it.
    pub open spec fn after_publishing(&self, data: Seq<u8>) -> RingState {
        RingState {
            history: self.history + data,
            payload: overwritten(self.payload, self.published() % self.capacity, data),
            ..*self
        }
    }

    /// The state after the reader in `slot` released `amount` more bytes.
    pub open spec fn after_releasing(&self, slot: int, amount: int) -> RingState {
        RingState {
            released: self.released.insert(slot, self.released[slot] + amount),
            ..*self
        }
    }

    /// The state after a reader attached in `slot` where `count` bytes are behind it.
    pub open spec fn after_attaching(&self, slot: int, count: int) -> RingState {
        RingState { released: self.released.insert(slot, count), ..*self }
    }

    /// The state after the reader in `slot` left.
    pub open spec fn after_detaching(&self, slot: int) -> RingState {
        RingState { released: self.released.remove(slot), ..*self }
    }

    /// Whether `producer` is the producer of this ring, where it last saw the readers `seen`,
    /// and each of them to have released so many bytes.
    ///
    /// What it saw may lag behind the truth: readers may have moved on, left, attached, and
    /// taken each other's slots since. Every reader that is attached stands where the producer
    /// does, or no further back than some reader that the producer saw.
    pub open spec fn producer_at(&self, producer: ProducerState, seen: Map<int, int>) -> bool {
        &&& producer.capacity == self.capacity
        &&& producer.write_position == wrapped(self.published())
        &&& forall|slot: int|
            0 <= slot < MAX_READERS ==> (#[trigger] holds(producer.readers.bitmap, slot)
                <==> seen.dom().contains(slot))
        &&& forall|slot: int| #[trigger]
            seen.dom().contains(slot) ==> {
                &&& 0 <= slot < MAX_READERS
                &&& producer.readers.positions@[slot] == wrapped(seen[slot])
                &&& 0 <= seen[slot] <= self.published() <= seen[slot] + self.capacity
            }
        &&& forall|slot: int| #[trigger]
            self.released.dom().contains(slot) ==> self.released[slot] == self.published()
                || covered(seen, self.released[slot])
    }

    /// Whether `consumer` is an attached reader of this ring, where it last saw `seen` bytes
    /// published. What it saw may lag behind the truth.
    pub open spec fn consumer_at(&self, consumer: ConsumerState, seen: int) -> bool {
        let slot = consumer.slot as int;
        &&& consumer.capacity == self.capacity
        &&& self.released.dom().contains(slot)
        &&& consumer.read_position == wrapped(self.released[slot])
        &&& consumer.write_position == wrapped(seen)
        &&& self.released[slot] <= seen <= self.published()
    }
}

/// Whether some reader that was seen had released no more than `count` bytes.
pub open spec fn covered(seen: Map<int, int>, count: int) -> bool {
    exists|slot: int| #[trigger] seen.dom().contains(slot) && seen[slot] <= count
}

/// A new ring satisfies the invariant.
pub proof fn lemma_initial(payload: Seq<u8>)
    requires
        valid_capacity(payload.len() as int),
    ensures
        RingState::initial(payload).inv(),
{
}

/// What the producer may write, by what it saw, is within a capacity of what every attached
/// reader has released, whether it saw that reader or not.
proof fn lemma_writable(state: RingState, producer: ProducerState, seen: Map<int, int>)
    requires
        state.inv(),
        state.producer_at(producer, seen),
    ensures
        producer.extent() matches Ok(available) ==> {
            &&& 0 <= available <= state.capacity
            &&& forall|slot: int| #[trigger]
                state.released.dom().contains(slot) ==> state.published() + available
                    <= state.released[slot] + state.capacity
        },
        producer.extent() matches Ok(available) ==> (seen.dom() =~= Set::empty() ==> available
            == state.capacity),
        producer.extent() is Err <==> seen.dom() =~= Set::empty()
            && !producer.survives_without_readers,
        producer.extent() is Err ==> producer.extent()->Err_0 == Error::PeerDisconnected,
{
    lemma_capacity_divides_positions(state.capacity);
    let readers = producer.readers;
    let write = producer.write_position;
    readers.lemma_largest_backlog(write, MAX_READERS as int);
    assert forall|slot: int| #[trigger] seen.dom().contains(slot) implies holds(
        readers.bitmap,
        slot,
    ) && readers.backlog(write, slot) == state.published() - seen[slot] by {
        lemma_wrapped_distance(seen[slot], state.published());
    }
    if readers.any() {
        let slowest = choose|slot: int|
            0 <= slot < MAX_READERS && #[trigger] holds(readers.bitmap, slot) && readers.backlog(
                write,
                slot,
            ) == readers.largest_backlog(write, MAX_READERS as int);
        assert(seen.dom().contains(slowest));
        let available = state.capacity - readers.largest_backlog(write, MAX_READERS as int);
        assert forall|slot: int| #[trigger] state.released.dom().contains(slot) implies state.published()
            + available <= state.released[slot] + state.capacity by {
            if state.released[slot] != state.published() {
                let seen_one = choose|other: int| #[trigger]
                    seen.dom().contains(other) && seen[other] <= state.released[slot];
                assert(holds(readers.bitmap, seen_one));
            }
        }
    } else {
        assert forall|slot: int| !seen.dom().contains(slot) by {
            if seen.dom().contains(slot) {
                assert(holds(readers.bitmap, slot));
            }
        }
        assert(forall|slot: int|
            0 <= slot < MAX_READERS ==> !#[trigger] holds(readers.bitmap, slot));
    }
}

/// The slowest attached reader limits the producer: whatever the producer may advance to
/// lies within one capacity of what every reader has released.
pub proof fn law_backpressure(
    state: RingState,
    producer: ProducerState,
    seen: Map<int, int>,
    position: u64,
)
    requires
        state.inv(),
        state.producer_at(producer, seen),
        advance_outcome(producer.write_position, producer.extent(), position) is Ok,
    ensures
        forall|slot: int| #[trigger]
            state.released.dom().contains(slot) ==> state.published() + spec_distance(
                producer.write_position,
                position,
            ) <= state.released[slot] + state.capacity,
{
    lemma_writable(state, producer, seen);
}

/// Publishing what the producer may advance over keeps the invariant, and leaves the
/// producer where it advanced to. Its observation goes on to hold if it saw some reader, or if
/// nobody reads; a producer that saw nobody while somebody attached has to look again.
pub proof fn law_publishing_is_safe(
    state: RingState,
    producer: ProducerState,
    seen: Map<int, int>,
    position: u64,
    data: Seq<u8>,
)
    requires
        state.inv(),
        state.producer_at(producer, seen),
        advance_outcome(producer.write_position, producer.extent(), position) is Ok,
        data.len() == spec_distance(producer.write_position, position),
    ensures
        state.after_publishing(data).inv(),
        wrapped(state.after_publishing(data).published()) == position,
        !(seen.dom() =~= Set::empty()) || state.released.dom() =~= Set::empty() || data.len() == 0
            ==> state.after_publishing(data).producer_at(
            ProducerState { write_position: position, ..producer },
            seen,
        ),
{
    lemma_writable(state, producer, seen);
    lemma_count_leads_there(state.published(), position);
    lemma_publishing_keeps_inv(state, data);
    let next = state.after_publishing(data);
    if !(seen.dom() =~= Set::empty()) {
        let witness = choose|slot: int| seen.dom().contains(slot);
        assert(seen.dom().contains(witness));
        lemma_published_within(state, producer, seen, data.len() as int);
        assert forall|slot: int| #[trigger] next.released.dom().contains(slot) implies covered(
            seen,
            next.released[slot],
        ) by {
            assert(state.released.dom().contains(slot));
            if state.released[slot] == state.published() {
                assert(seen[witness] <= state.released[slot]);
            }
        }
    }
}

/// What the producer publishes stays within a capacity of every reader that it saw.
proof fn lemma_published_within(
    state: RingState,
    producer: ProducerState,
    seen: Map<int, int>,
    amount: int,
)
    requires
        state.inv(),
        state.producer_at(producer, seen),
        producer.extent() matches Ok(available) && 0 <= amount <= available,
    ensures
        forall|slot: int| #[trigger]
            seen.dom().contains(slot) ==> seen[slot] <= state.published() + amount <= seen[slot]
                + state.capacity,
{
    lemma_capacity_divides_positions(state.capacity);
    let readers = producer.readers;
    let write = producer.write_position;
    readers.lemma_largest_backlog(write, MAX_READERS as int);
    assert forall|slot: int| #[trigger] seen.dom().contains(slot) implies seen[slot]
        <= state.published() + amount <= seen[slot] + state.capacity by {
        assert(holds(readers.bitmap, slot));
        lemma_wrapped_distance(seen[slot], state.published());
    }
}

/// Publishing within a capacity of every reader keeps the invariant.
proof fn lemma_publishing_keeps_inv(state: RingState, data: Seq<u8>)
    requires
        state.inv(),
        forall|slot: int| #[trigger]
            state.released.dom().contains(slot) ==> state.published() + data.len()
                <= state.released[slot] + state.capacity,
    ensures
        state.after_publishing(data).inv(),
{
    let next = state.after_publishing(data);
    assert forall|slot: int, count: int|
        #![trigger next.released.dom().contains(slot), next.history[count]]
        next.released.dom().contains(slot) && next.released[slot] <= count
            < next.published() implies next.payload[count % next.capacity] == next.history[count] by {
        assert(state.released.dom().contains(slot));
        lemma_publishing_keeps_the_rest(state, data, count, state.released[slot]);
        if count < state.published() {
            assert(state.payload[count % state.capacity] == state.history[count]);
        }
    }
    assert forall|slot: int| #[trigger] next.released.dom().contains(slot) implies 0
        <= next.released[slot] <= next.published() <= next.released[slot] + next.capacity by {
        assert(state.released.dom().contains(slot));
    }
}

/// Where publishing puts the byte number `count`, and what it leaves alone.
proof fn lemma_publishing_keeps_the_rest(state: RingState, data: Seq<u8>, count: int, oldest: int)
    requires
        valid_capacity(state.capacity),
        state.payload.len() == state.capacity,
        0 <= oldest <= count < state.published() + data.len() <= oldest + state.capacity,
        oldest <= state.published(),
    ensures
        count < state.published() ==> state.after_publishing(data).payload[count % state.capacity]
            == state.payload[count % state.capacity],
        count >= state.published() ==> state.after_publishing(data).payload[count % state.capacity]
            == data[count - state.published()],
{
    lemma_capacity_divides_positions(state.capacity);
    let capacity = state.capacity;
    let start = state.published() % capacity;
    let index = count % capacity;
    vstd::arithmetic::div_mod::lemma_mod_bound(count, capacity);
    vstd::arithmetic::div_mod::lemma_sub_mod_noop(count, state.published(), capacity);
    assert((index - start) % capacity == (count - state.published()) % capacity);
    if count >= state.published() {
        vstd::arithmetic::div_mod::lemma_small_mod(
            (count - state.published()) as nat,
            capacity as nat,
        );
    } else {
        let reached = count - state.published() + capacity;
        vstd::arithmetic::div_mod::lemma_mod_add_multiples_vanish(
            count - state.published(),
            capacity,
        );
        vstd::arithmetic::div_mod::lemma_small_mod(reached as nat, capacity as nat);
    }
}

/// Writing at a reservation of the producer's position is what publishing does to the
/// payload.
pub proof fn law_reservation_is_where_publishing_writes(
    state: RingState,
    producer: ProducerState,
    seen: Map<int, int>,
    minimum: int,
    data: Seq<u8>,
)
    requires
        state.inv(),
        state.producer_at(producer, seen),
        0 <= minimum,
        ({
            let reservation = reservation_at(
                producer.capacity as int,
                producer.write_position,
                producer.extent(),
                producer.write_position,
                minimum,
            );
            reservation is Ok && data.len() <= reservation->Ok_0.len
        }),
    ensures
        ({
            let reservation = reservation_at(
                producer.capacity as int,
                producer.write_position,
                producer.extent(),
                producer.write_position,
                minimum,
            )->Ok_0;
            &&& minimum <= reservation.len <= state.capacity
            &&& reservation.ptr < state.capacity
            &&& overwritten(state.payload, reservation.ptr as int, data) == state.after_publishing(
                data,
            ).payload
            &&& advance_outcome(
                producer.write_position,
                producer.extent(),
                wrapped(producer.write_position + data.len()),
            ) is Ok
        }),
{
    lemma_writable(state, producer, seen);
    lemma_capacity_divides_positions(state.capacity);
    lemma_wrapping_keeps_offset(state.published(), state.capacity);
    vstd::arithmetic::div_mod::lemma_mod_bound(state.published(), state.capacity);
}

/// What a reader reserves is what was published: the reservation shows, contiguously and
/// also across the payload's end, exactly the published bytes from the reserved position
/// on, of which it holds all that the reader saw.
pub proof fn law_reads_give_back_what_was_published(
    state: RingState,
    consumer: ConsumerState,
    seen: int,
    position: u64,
    minimum: int,
)
    requires
        state.inv(),
        state.consumer_at(consumer, seen),
        0 <= minimum,
        reservation_at(
            consumer.capacity as int,
            consumer.read_position,
            consumer.extent(),
            position,
            minimum,
        ) is Ok,
    ensures
        ({
            let reservation = reservation_at(
                consumer.capacity as int,
                consumer.read_position,
                consumer.extent(),
                position,
                minimum,
            )->Ok_0;
            let count = state.released[consumer.slot as int] + spec_distance(
                consumer.read_position,
                position,
            );
            &&& minimum <= reservation.len
            &&& reservation.len == seen - count
            &&& reservation.ptr < state.capacity
            &&& shown(state.payload, reservation.ptr as int, reservation.len as int)
                == state.history.subrange(count, seen)
        }),
{
    let slot = consumer.slot as int;
    let capacity = state.capacity;
    lemma_capacity_divides_positions(capacity);
    lemma_wrapped_distance(state.released[slot], seen);
    let ahead = spec_distance(consumer.read_position, position);
    let count = state.released[slot] + ahead;
    lemma_count_leads_there(state.released[slot], position);
    lemma_wrapping_keeps_offset(count, capacity);
    vstd::arithmetic::div_mod::lemma_mod_bound(count, capacity);
    let reservation = reservation_at(
        consumer.capacity as int,
        consumer.read_position,
        consumer.extent(),
        position,
        minimum,
    )->Ok_0;
    let bytes = shown(state.payload, reservation.ptr as int, reservation.len as int);
    assert forall|i: int| 0 <= i < reservation.len implies #[trigger] bytes[i]
        == state.history.subrange(count, seen)[i] by {
        vstd::arithmetic::div_mod::lemma_add_mod_noop(count, i, capacity);
        vstd::arithmetic::div_mod::lemma_add_mod_noop(count % capacity, i, capacity);
        vstd::arithmetic::div_mod::lemma_mod_twice(count, capacity);
        assert((reservation.ptr + i) % capacity == (count + i) % capacity);
        assert(state.released.dom().contains(slot));
        assert(state.history[count + i] == state.payload[(count + i) % capacity]);
    }
    assert(bytes =~= state.history.subrange(count, seen));
}

/// Releasing what a reader may advance over keeps the invariant, leaves the reader where it
/// advanced to, and moves no other reader, be it a fork of this one or not.
pub proof fn law_releasing_is_safe(
    state: RingState,
    consumer: ConsumerState,
    seen: int,
    position: u64,
)
    requires
        state.inv(),
        state.consumer_at(consumer, seen),
        advance_outcome(consumer.read_position, consumer.extent(), position) is Ok,
    ensures
        ({
            let amount = spec_distance(consumer.read_position, position);
            let next = state.after_releasing(consumer.slot as int, amount);
            &&& next.inv()
            &&& next.consumer_at(ConsumerState { read_position: position, ..consumer }, seen)
            &&& forall|other: int|
                other != consumer.slot && #[trigger] state.released.dom().contains(other)
                    ==> next.released.dom().contains(other) && next.released[other]
                    == state.released[other]
        }),
{
    let slot = consumer.slot as int;
    lemma_capacity_divides_positions(state.capacity);
    lemma_wrapped_distance(state.released[slot], seen);
    let amount = spec_distance(consumer.read_position, position);
    let next = state.after_releasing(slot, amount);
    lemma_count_leads_there(state.released[slot], position);
    assert forall|other: int| #[trigger] next.released.dom().contains(other) implies 0 <= other
        < MAX_READERS && 0 <= next.released[other] <= next.published() <= next.released[other]
        + next.capacity by {
        assert(state.released.dom().contains(other));
    }
    assert forall|other: int, count: int|
        #![trigger next.released.dom().contains(other), next.history[count]]
        next.released.dom().contains(other) && next.released[other] <= count
            < next.published() implies next.payload[count % next.capacity] == next.history[count] by {
        assert(state.released.dom().contains(other));
        assert(state.history[count] == next.history[count]);
    }
}

/// A reader may attach at the producer's position, where it has nothing to read yet.
pub proof fn law_new_readers_start_at_the_producer(state: RingState, slot: int)
    requires
        state.inv(),
        0 <= slot < MAX_READERS,
        !state.released.dom().contains(slot),
    ensures
        state.after_attaching(slot, state.published()).inv(),
        state.after_attaching(slot, state.published()).released[slot] == state.published(),
{
    lemma_attaching(state, slot, state.published());
}

/// A reader that attached at the producer's position receives only bytes published after
/// its attachment: whatever it reserves later is part of what followed.
pub proof fn law_new_readers_receive_what_follows(
    attachment: RingState,
    later: RingState,
    consumer: ConsumerState,
    seen: int,
    position: u64,
    minimum: int,
)
    requires
        later.inv(),
        attachment.history.is_prefix_of(later.history),
        later.consumer_at(consumer, seen),
        attachment.published() <= later.released[consumer.slot as int],
        0 <= minimum,
        reservation_at(
            consumer.capacity as int,
            consumer.read_position,
            consumer.extent(),
            position,
            minimum,
        ) is Ok,
    ensures
        ({
            let reservation = reservation_at(
                consumer.capacity as int,
                consumer.read_position,
                consumer.extent(),
                position,
                minimum,
            )->Ok_0;
            let followed = later.history.skip(attachment.published());
            let count = later.released[consumer.slot as int] + spec_distance(
                consumer.read_position,
                position,
            ) - attachment.published();
            &&& 0 <= count
            &&& shown(later.payload, reservation.ptr as int, reservation.len as int)
                == followed.subrange(count, count + reservation.len)
        }),
{
    law_reads_give_back_what_was_published(later, consumer, seen, position, minimum);
    let count = later.released[consumer.slot as int] + spec_distance(
        consumer.read_position,
        position,
    );
    let start = attachment.published();
    assert(later.history.skip(start).subrange(count - start, seen - start)
        =~= later.history.subrange(count, seen));
}

/// What a reader that has caught up reads next is what the producer publishes next.
pub proof fn law_a_read_gives_back_a_write(
    state: RingState,
    producer: ProducerState,
    seen: Map<int, int>,
    advance: u64,
    data: Seq<u8>,
    consumer: ConsumerState,
    minimum: int,
)
    requires
        state.inv(),
        state.producer_at(producer, seen),
        advance_outcome(producer.write_position, producer.extent(), advance) is Ok,
        data.len() == spec_distance(producer.write_position, advance),
        state.consumer_at(consumer, state.published()),
        state.released[consumer.slot as int] == state.published(),
        0 <= minimum <= data.len(),
    ensures
        ({
            let observing = ConsumerState { write_position: advance, ..consumer };
            let reservation = reservation_at(
                consumer.capacity as int,
                consumer.read_position,
                observing.extent(),
                consumer.read_position,
                minimum,
            );
            &&& reservation is Ok
            &&& reservation->Ok_0.len == data.len()
            &&& shown(
                state.after_publishing(data).payload,
                reservation->Ok_0.ptr as int,
                data.len() as int,
            ) == data
        }),
{
    let next = state.after_publishing(data);
    let observing = ConsumerState { write_position: advance, ..consumer };
    law_publishing_is_safe(state, producer, seen, advance, data);
    lemma_writable(state, producer, seen);
    lemma_capacity_divides_positions(state.capacity);
    lemma_wrapped_distance(state.published(), next.published());
    assert(next.consumer_at(observing, next.published()));
    law_reads_give_back_what_was_published(
        next,
        observing,
        next.published(),
        consumer.read_position,
        minimum,
    );
    assert(next.history.subrange(state.published(), next.published()) =~= data);
}

/// A fork inherits its source's position: it keeps the invariant, and every byte that the
/// source has yet to release is still there for the fork.
pub proof fn law_forks_inherit_the_position(state: RingState, source: int, slot: int)
    requires
        state.inv(),
        state.released.dom().contains(source),
        0 <= slot < MAX_READERS,
        !state.released.dom().contains(slot),
    ensures
        state.after_attaching(slot, state.released[source]).inv(),
        state.after_attaching(slot, state.released[source]).released[source]
            == state.released[source],
{
    lemma_attaching(state, slot, state.released[source]);
}

/// A reader may attach anywhere between the slowest position that the payload still holds
/// and the producer.
proof fn lemma_attaching(state: RingState, slot: int, count: int)
    requires
        state.inv(),
        0 <= slot < MAX_READERS,
        0 <= count <= state.published() <= count + state.capacity,
        count == state.published() || exists|source: int|
            #[trigger] state.released.dom().contains(source) && state.released[source] == count,
    ensures
        state.after_attaching(slot, count).inv(),
{
    lemma_capacity_divides_positions(state.capacity);
    let next = state.after_attaching(slot, count);
    assert forall|other: int| #[trigger] next.released.dom().contains(other) implies 0 <= other
        < MAX_READERS && 0 <= next.released[other] <= next.published() <= next.released[other]
        + next.capacity by {
        assert(other == slot || state.released.dom().contains(other));
    }
    assert forall|other: int, number: int|
        #![trigger next.released.dom().contains(other), next.history[number]]
        next.released.dom().contains(other) && next.released[other] <= number
            < next.published() implies next.payload[number % next.capacity]
        == next.history[number] by {
        if other == slot {
            let source = choose|source: int|
                #[trigger] state.released.dom().contains(source) && state.released[source] == count;
            assert(state.released.dom().contains(source));
            assert(state.history[number] == next.history[number]);
        } else {
            assert(state.released.dom().contains(other));
            assert(state.history[number] == next.history[number]);
        }
    }
}

/// A reader that leaves keeps the invariant for the others.
pub proof fn law_leaving_disturbs_nobody(state: RingState, slot: int)
    requires
        state.inv(),
    ensures
        state.after_detaching(slot).inv(),
        forall|other: int|
            other != slot ==> (#[trigger] state.after_detaching(slot).released.dom().contains(other)
                <==> state.released.dom().contains(other)),
        forall|other: int|
            other != slot && #[trigger] state.released.dom().contains(other)
                ==> state.after_detaching(slot).released[other] == state.released[other],
{
    let next = state.after_detaching(slot);
    assert forall|other: int| #[trigger] next.released.dom().contains(other) implies 0 <= other
        < MAX_READERS && 0 <= next.released[other] <= next.published() <= next.released[other]
        + next.capacity by {
        assert(state.released.dom().contains(other));
    }
    assert forall|other: int, count: int|
        #![trigger next.released.dom().contains(other), next.history[count]]
        next.released.dom().contains(other) && next.released[other] <= count
            < next.published() implies next.payload[count % next.capacity] == next.history[count] by {
        assert(state.released.dom().contains(other));
        assert(state.history[count] == next.history[count]);
    }
}

/// A reader's reservation outlives everything that the producer publishes: until the
/// reader itself moves past its start, the reservation shows the same bytes.
pub proof fn law_reservations_outlive_publishing(
    state: RingState,
    producer: ProducerState,
    seen_by_producer: Map<int, int>,
    advance: u64,
    data: Seq<u8>,
    consumer: ConsumerState,
    seen_by_consumer: int,
    position: u64,
    minimum: int,
)
    requires
        state.inv(),
        state.producer_at(producer, seen_by_producer),
        advance_outcome(producer.write_position, producer.extent(), advance) is Ok,
        data.len() == spec_distance(producer.write_position, advance),
        state.consumer_at(consumer, seen_by_consumer),
        0 <= minimum,
        reservation_at(
            consumer.capacity as int,
            consumer.read_position,
            consumer.extent(),
            position,
            minimum,
        ) is Ok,
    ensures
        state.after_publishing(data).consumer_at(consumer, seen_by_consumer),
        ({
            let reservation = reservation_at(
                consumer.capacity as int,
                consumer.read_position,
                consumer.extent(),
                position,
                minimum,
            )->Ok_0;
            shown(
                state.after_publishing(data).payload,
                reservation.ptr as int,
                reservation.len as int,
            ) == shown(state.payload, reservation.ptr as int, reservation.len as int)
        }),
{
    let next = state.after_publishing(data);
    law_publishing_is_safe(state, producer, seen_by_producer, advance, data);
    law_reads_give_back_what_was_published(state, consumer, seen_by_consumer, position, minimum);
    law_reads_give_back_what_was_published(next, consumer, seen_by_consumer, position, minimum);
    let count = state.released[consumer.slot as int] + spec_distance(
        consumer.read_position,
        position,
    );
    assert(next.history.subrange(count, seen_by_consumer) =~= state.history.subrange(
        count,
        seen_by_consumer,
    ));
}

/// A reservation outlives an advance of its own cursor up to its start: the cursor then
/// grants the same bytes again, at the same place, and at least as many of them. What stays
/// available after the advance is at least the rest of what was available before it.
pub proof fn law_reservations_outlive_advancing(
    capacity: int,
    start: u64,
    available: int,
    position: u64,
    minimum: int,
    target: u64,
    remaining: int,
)
    requires
        0 <= minimum,
        0 <= available <= capacity <= usize::MAX,
        reservation_at(capacity, start, Ok(available), position, minimum) is Ok,
        advance_outcome(start, Ok(available), target) is Ok,
        spec_distance(start, target) <= spec_distance(start, position),
        available - spec_distance(start, target) <= remaining <= capacity,
    ensures
        ({
            let before = reservation_at(capacity, start, Ok(available), position, minimum)->Ok_0;
            let after = reservation_at(capacity, target, Ok(remaining), position, minimum);
            &&& after is Ok
            &&& after->Ok_0.position == before.position
            &&& after->Ok_0.ptr == before.ptr
            &&& after->Ok_0.len >= before.len
            &&& remaining == available - spec_distance(start, target) ==> after->Ok_0 == before
        }),
{
    assert(spec_distance(target, position) == spec_distance(start, position) - spec_distance(
        start,
        target,
    ));
}

/// What the producer reserves, no reader can reach: no byte of a reservation of the
/// producer is one that some reader has yet to release.
pub proof fn law_the_producer_writes_alone(
    state: RingState,
    producer: ProducerState,
    seen: Map<int, int>,
    position: u64,
    minimum: int,
    slot: int,
    count: int,
    i: int,
)
    requires
        state.inv(),
        state.producer_at(producer, seen),
        0 <= minimum,
        reservation_at(
            producer.capacity as int,
            producer.write_position,
            producer.extent(),
            position,
            minimum,
        ) is Ok,
        state.released.dom().contains(slot),
        state.released[slot] <= count < state.published(),
        0 <= i < reservation_at(
            producer.capacity as int,
            producer.write_position,
            producer.extent(),
            position,
            minimum,
        )->Ok_0.len,
    ensures
        (reservation_at(
            producer.capacity as int,
            producer.write_position,
            producer.extent(),
            position,
            minimum,
        )->Ok_0.ptr + i) % state.capacity != count % state.capacity,
{
    let capacity = state.capacity;
    lemma_writable(state, producer, seen);
    lemma_capacity_divides_positions(capacity);
    let ahead = spec_distance(producer.write_position, position);
    let start = state.published() + ahead;
    lemma_count_leads_there(state.published(), position);
    lemma_wrapping_keeps_offset(start, capacity);
    vstd::arithmetic::div_mod::lemma_mod_bound(start, capacity);
    assert(state.published() + producer.extent()->Ok_0 <= state.released[slot] + capacity);
    lemma_distinct_bytes(start, i, count, capacity);
}

/// Bytes less than a capacity apart live at different indices.
proof fn lemma_distinct_bytes(start: int, i: int, count: int, capacity: int)
    requires
        0 <= i,
        0 < start + i - count < capacity,
    ensures
        (start % capacity + i) % capacity != count % capacity,
{
    let gap = start + i - count;
    vstd::arithmetic::div_mod::lemma_add_mod_noop(start, i, capacity);
    vstd::arithmetic::div_mod::lemma_add_mod_noop(start % capacity, i, capacity);
    vstd::arithmetic::div_mod::lemma_mod_twice(start, capacity);
    if (start + i) % capacity == count % capacity {
        vstd::arithmetic::div_mod::lemma_mod_equivalence(start + i, count, capacity);
        vstd::arithmetic::div_mod::lemma_small_mod(gap as nat, capacity as nat);
    }
}

/// A reader's lagging observation never grants more than the truth would.
pub proof fn law_lagging_readers_are_granted_less(state: RingState, consumer: ConsumerState, seen: int)
    requires
        state.inv(),
        state.consumer_at(consumer, seen),
    ensures
        consumer.extent() is Ok,
        readable(state.capacity, consumer.read_position, wrapped(state.published())) is Ok,
        consumer.extent()->Ok_0 <= readable(
            state.capacity,
            consumer.read_position,
            wrapped(state.published()),
        )->Ok_0,
{
    let slot = consumer.slot as int;
    lemma_capacity_divides_positions(state.capacity);
    lemma_wrapped_distance(state.released[slot], seen);
    lemma_wrapped_distance(state.released[slot], state.published());
}

/// The producer's lagging observation never grants more than the truth would: where both
/// grant something, the lagging one grants no more, and only a ring that nobody reads, and
/// that does not survive that, is refused by the truth.
pub proof fn law_lagging_producers_are_granted_less(
    state: RingState,
    lagging: ProducerState,
    seen: Map<int, int>,
    current: ProducerState,
)
    requires
        state.inv(),
        state.producer_at(lagging, seen),
        state.producer_at(current, state.released),
        lagging.survives_without_readers == current.survives_without_readers,
    ensures
        lagging.extent() is Ok && current.extent() is Ok ==> lagging.extent()->Ok_0
            <= current.extent()->Ok_0,
        current.extent() is Err ==> state.released.dom() =~= Set::empty(),
        lagging.extent() is Err ==> seen.dom() =~= Set::empty()
            && !lagging.survives_without_readers,
{
    lemma_writable(state, lagging, seen);
    lemma_writable(state, current, state.released);
    lemma_capacity_divides_positions(state.capacity);
    let write = current.write_position;
    current.readers.lemma_largest_backlog(write, MAX_READERS as int);
    if current.readers.any() {
        let slowest = choose|slot: int|
            0 <= slot < MAX_READERS && #[trigger] holds(current.readers.bitmap, slot)
                && current.readers.backlog(write, slot) == current.readers.largest_backlog(
                write,
                MAX_READERS as int,
            );
        assert(state.released.dom().contains(slowest));
        lemma_wrapped_distance(state.released[slowest], state.published());
    } else {
        assert forall|slot: int| !state.released.dom().contains(slot) by {
            if state.released.dom().contains(slot) {
                assert(holds(current.readers.bitmap, slot));
            }
        }
    }
}

/// What the producer saw goes on to hold, without another look, while readers release bytes,
/// attach where the producer is or where another reader is, and leave.
pub proof fn law_observations_outlast_the_readers(
    state: RingState,
    producer: ProducerState,
    seen: Map<int, int>,
    slot: int,
    amount: int,
    source: int,
)
    requires
        state.inv(),
        state.producer_at(producer, seen),
        0 <= amount,
    ensures
        state.released.dom().contains(slot) && state.released[slot] + amount <= state.published()
            ==> state.after_releasing(slot, amount).producer_at(producer, seen),
        state.after_attaching(slot, state.published()).producer_at(producer, seen),
        state.released.dom().contains(source) ==> state.after_attaching(
            slot,
            state.released[source],
        ).producer_at(producer, seen),
        state.after_detaching(slot).producer_at(producer, seen),
{
    if state.released.dom().contains(slot) && state.released[slot] + amount <= state.published() {
        let next = state.after_releasing(slot, amount);
        assert forall|other: int| #[trigger] next.released.dom().contains(
            other,
        ) implies next.released[other] == next.published() || covered(
            seen,
            next.released[other],
        ) by {
            assert(state.released.dom().contains(other));
            if state.released[other] != state.published() {
                let witness = choose|s: int| #[trigger]
                    seen.dom().contains(s) && seen[s] <= state.released[other];
                assert(seen[witness] <= next.released[other]);
            }
        }
    }
    let starting = state.after_attaching(slot, state.published());
    assert forall|other: int| #[trigger] starting.released.dom().contains(
        other,
    ) implies starting.released[other] == starting.published() || covered(
        seen,
        starting.released[other],
    ) by {
        assert(other == slot || state.released.dom().contains(other));
    }
    if state.released.dom().contains(source) {
        let forked = state.after_attaching(slot, state.released[source]);
        assert forall|other: int| #[trigger] forked.released.dom().contains(
            other,
        ) implies forked.released[other] == forked.published() || covered(
            seen,
            forked.released[other],
        ) by {
            assert(other == slot || state.released.dom().contains(other));
        }
    }
    let left = state.after_detaching(slot);
    assert forall|other: int| #[trigger] left.released.dom().contains(
        other,
    ) implies left.released[other] == left.published() || covered(seen, left.released[other]) by {
        assert(state.released.dom().contains(other));
    }
}

/// Without readers, a ring that survives them offers its whole capacity, and any other one
/// reports that its peer is gone.
pub proof fn law_without_readers(capacity: int, readers: ObservedReaders, write: u64)
    requires
        valid_capacity(capacity),
        !readers.any(),
    ensures
        writable(capacity, readers, write, true) == Ok::<int, Error>(capacity),
        writable(capacity, readers, write, false) == Err::<int, Error>(Error::PeerDisconnected),
{
    lemma_capacity_divides_positions(capacity);
    readers.lemma_largest_backlog(write, MAX_READERS as int);
    assert(forall|slot: int| 0 <= slot < MAX_READERS ==> !#[trigger] holds(readers.bitmap, slot));
}

/// The producer is granted all the free space that it saw: exactly up to a capacity ahead of the
/// slowest reader that it saw, so that some reader leaves no byte more. Where it saw nobody, a
/// ring that survives that offers its whole capacity, and any other one is disconnected.
pub proof fn law_free_space_is_granted(
    state: RingState,
    producer: ProducerState,
    seen: Map<int, int>,
)
    requires
        state.inv(),
        state.producer_at(producer, seen),
    ensures
        !(seen.dom() =~= Set::empty()) ==> (producer.extent() matches Ok(available) && {
            &&& 0 <= available <= state.capacity
            &&& forall|slot: int| #[trigger]
                seen.dom().contains(slot) ==> state.published() + available <= seen[slot]
                    + state.capacity
            &&& exists|slot: int| #[trigger]
                seen.dom().contains(slot) && state.published() + available == seen[slot]
                    + state.capacity
        }),
        seen.dom() =~= Set::empty() ==> producer.extent() == (
        if producer.survives_without_readers {
            Ok::<int, Error>(state.capacity)
        } else {
            Err::<int, Error>(Error::PeerDisconnected)
        }),
{
    lemma_writable(state, producer, seen);
    lemma_capacity_divides_positions(state.capacity);
    let readers = producer.readers;
    let write = producer.write_position;
    readers.lemma_largest_backlog(write, MAX_READERS as int);
    assert forall|slot: int| #[trigger] seen.dom().contains(slot) implies holds(
        readers.bitmap,
        slot,
    ) && readers.backlog(write, slot) == state.published() - seen[slot] by {
        lemma_wrapped_distance(seen[slot], state.published());
    }
    if !(seen.dom() =~= Set::empty()) {
        let witness = choose|slot: int| seen.dom().contains(slot);
        assert(holds(readers.bitmap, witness));
        let slowest = choose|slot: int|
            0 <= slot < MAX_READERS && #[trigger] holds(readers.bitmap, slot) && readers.backlog(
                write,
                slot,
            ) == readers.largest_backlog(write, MAX_READERS as int);
        assert(seen.dom().contains(slowest));
    }
}

/// A reader is granted everything that it saw published and has yet to release, exactly.
pub proof fn law_published_bytes_are_granted(state: RingState, consumer: ConsumerState, seen: int)
    requires
        state.inv(),
        state.consumer_at(consumer, seen),
    ensures
        consumer.extent() == Ok::<int, Error>(seen - state.released[consumer.slot as int]),
{
    lemma_capacity_divides_positions(state.capacity);
    lemma_wrapped_distance(state.released[consumer.slot as int], seen);
}

/// A reader's two positions are at odds exactly where more than a capacity lies between them,
/// and anything up to that, a whole capacity too, is what it may read.
pub proof fn law_readers_report_contradictions(consumer: ConsumerState, behind: int)
    requires
        valid_capacity(consumer.capacity as int),
        0 <= behind < 0x1_0000_0000_0000_0000,
        consumer.write_position == (consumer.read_position + behind) % 0x1_0000_0000_0000_0000,
    ensures
        behind <= consumer.capacity ==> consumer.extent() == Ok::<int, Error>(behind),
        behind > consumer.capacity ==> consumer.extent() == Err::<int, Error>(Error::CorruptState),
{
}

/// The producer's position is at odds with a reader's exactly where more than a capacity lies
/// between them. One such reader is enough, and without one the producer has an extent.
pub proof fn law_producers_report_contradictions(producer: ProducerState)
    requires
        valid_capacity(producer.capacity as int),
    ensures
        producer.extent() == Err::<int, Error>(Error::CorruptState) <==> exists|slot: int|
            0 <= slot < MAX_READERS && #[trigger] holds(producer.readers.bitmap, slot) && (
            producer.write_position - producer.readers.positions@[slot])
                % 0x1_0000_0000_0000_0000 > producer.capacity,
        producer.extent() == Err::<int, Error>(Error::PeerDisconnected)
            <==> !producer.survives_without_readers && forall|slot: int|
            0 <= slot < MAX_READERS ==> !#[trigger] holds(producer.readers.bitmap, slot),
        producer.extent() matches Err(error) ==> error == Error::CorruptState || error
            == Error::PeerDisconnected,
        producer.extent() matches Ok(available) ==> {
            &&& forall|slot: int|
                0 <= slot < MAX_READERS && #[trigger] holds(producer.readers.bitmap, slot)
                    ==> available <= producer.capacity - (producer.write_position
                    - producer.readers.positions@[slot]) % 0x1_0000_0000_0000_0000
            &&& available == producer.capacity || exists|slot: int|
                0 <= slot < MAX_READERS && #[trigger] holds(producer.readers.bitmap, slot)
                    && available == producer.capacity - (producer.write_position
                    - producer.readers.positions@[slot]) % 0x1_0000_0000_0000_0000
        },
{
    lemma_capacity_divides_positions(producer.capacity as int);
    let readers = producer.readers;
    let write = producer.write_position;
    readers.lemma_largest_backlog(write, MAX_READERS as int);
    assert forall|slot: int| #[trigger] holds(readers.bitmap, slot) implies readers.backlog(
        write,
        slot,
    ) == (producer.write_position - producer.readers.positions@[slot])
        % 0x1_0000_0000_0000_0000 by {}
    if readers.any() {
        let slowest = choose|slot: int|
            0 <= slot < MAX_READERS && #[trigger] holds(readers.bitmap, slot) && readers.backlog(
                write,
                slot,
            ) == readers.largest_backlog(write, MAX_READERS as int);
        assert(holds(readers.bitmap, slowest));
    } else {
        assert(forall|slot: int|
            0 <= slot < MAX_READERS ==> !#[trigger] holds(readers.bitmap, slot));
    }
}

/// What the producer publishes is used up: it may write so many bytes fewer, where it saw some
/// reader, until that reader moves on.
#[verifier::spinoff_prover]
pub proof fn law_publishing_uses_up_the_space(producer: ProducerState, amount: int)
    requires
        valid_capacity(producer.capacity as int),
        0 <= amount,
        producer.extent() matches Ok(available) && amount <= available,
        exists|slot: int| 0 <= slot < MAX_READERS && #[trigger] holds(producer.readers.bitmap, slot),
    ensures
        (ProducerState { write_position: wrapped(producer.write_position + amount), ..producer }).extent()
            == Ok::<int, Error>(producer.extent()->Ok_0 - amount),
{
    let write = producer.write_position;
    let after = wrapped(write + amount);
    assert(producer.capacity <= 0x8000_0000_0000_0000);
    producer.readers.lemma_largest_backlog(write, MAX_READERS as int);
    lemma_moving_changes_distances(write, write, amount);
    producer.readers.lemma_backlog_grows(write, after, MAX_READERS as int);
}

/// What a reader releases is used up, and what it sees published on top is gained: it may read
/// so many bytes fewer, and so many more.
#[verifier::spinoff_prover]
pub proof fn law_releasing_uses_up_the_bytes(consumer: ConsumerState, amount: int)
    requires
        valid_capacity(consumer.capacity as int),
        0 <= amount,
        consumer.extent() is Ok,
    ensures
        amount <= consumer.extent()->Ok_0 ==> (ConsumerState {
            read_position: wrapped(consumer.read_position + amount),
            ..consumer
        }).extent() == Ok::<int, Error>(consumer.extent()->Ok_0 - amount),
        consumer.extent()->Ok_0 + amount <= consumer.capacity ==> (ConsumerState {
            write_position: wrapped(consumer.write_position + amount),
            ..consumer
        }).extent() == Ok::<int, Error>(consumer.extent()->Ok_0 + amount),
{
    assert(consumer.capacity <= 0x8000_0000_0000_0000);
    if amount <= consumer.capacity {
        lemma_moving_changes_distances(consumer.read_position, consumer.write_position, amount);
    }
}

} // verus!

//! How a registry and its memory realize the state of a ring, step by step.

use crate::mapping::memory::overwritten;
use crate::ring::consumer::ConsumerState;
use crate::ring::laws::RingState;
use crate::ring::position::wrapped;
use crate::ring::producer::ProducerState;
use crate::ring::reader::{attaches, detaches, ReaderRegistry};
use crate::ring::slots::holds;
use crate::ring::MAX_READERS;
use vstd::prelude::*;

verus! {

/// Whether `registry` and its memory stand for `state`.
pub open spec fn realizes(registry: ReaderRegistry, state: RingState) -> bool {
    let header = registry.memory.header;
    &&& registry.wf()
    &&& registry.memory.spec_capacity() == state.capacity
    &&& registry.memory.payload@ == state.payload
    &&& header.write_position == wrapped(state.published())
    &&& forall|slot: int| #[trigger]
        state.released.dom().contains(slot) ==> 0 <= slot < MAX_READERS
            && header.read_positions@[slot] == wrapped(state.released[slot])
    &&& forall|slot: int|
        0 <= slot < MAX_READERS ==> (#[trigger] registry.members.active()[slot] is Some
            <==> state.released.dom().contains(slot))
}

/// A registry without readers stands for the ring without traffic.
pub proof fn law_new_rings_are_initial(registry: ReaderRegistry)
    requires
        registry.wf(),
        registry.memory.header.write_position == 0,
        forall|slot: int|
            0 <= slot < MAX_READERS ==> #[trigger] registry.members.active()[slot] is None,
    ensures
        realizes(registry, RingState::initial(registry.memory.payload@)),
        RingState::initial(registry.memory.payload@).inv(),
{
    crate::ring::laws::lemma_initial(registry.memory.payload@);
}

/// A producer that observes the registry sees its readers as they are.
pub proof fn law_producers_observe_the_truth(
    registry: ReaderRegistry,
    state: RingState,
    producer: ProducerState,
)
    requires
        state.inv(),
        realizes(registry, state),
        producer.capacity == registry.memory.spec_capacity(),
        producer.write_position == registry.memory.header.write_position,
        producer.readers.positions == registry.memory.header.read_positions,
        forall|slot: int|
            0 <= slot < MAX_READERS ==> (#[trigger] holds(producer.readers.bitmap, slot)
                <==> registry.members.active()[slot] is Some),
    ensures
        state.producer_at(producer, state.released),
{
    assert forall|slot: int| 0 <= slot < MAX_READERS implies (#[trigger] holds(
        producer.readers.bitmap,
        slot,
    ) <==> state.released.dom().contains(slot)) by {
        assert(registry.members.active()[slot] is Some <==> state.released.dom().contains(slot));
    }
}

/// A consumer that observes the header sees the producer where it is.
pub proof fn law_consumers_observe_the_truth(
    registry: ReaderRegistry,
    state: RingState,
    consumer: ConsumerState,
)
    requires
        state.inv(),
        realizes(registry, state),
        consumer.capacity == registry.memory.spec_capacity(),
        state.released.dom().contains(consumer.slot as int),
        consumer.read_position
            == registry.memory.header.read_positions@[consumer.slot as int],
        consumer.write_position == registry.memory.header.write_position,
    ensures
        state.consumer_at(consumer, state.published()),
{
}

/// Attaching a reader at the position of `count` moves the ring to where that reader has
/// `count` bytes behind it.
pub proof fn law_attaching_realizes(
    before: ReaderRegistry,
    state: RingState,
    slot: int,
    count: int,
    after: ReaderRegistry,
)
    requires
        realizes(before, state),
        0 <= slot < MAX_READERS,
        after.wf(),
        attaches(before.memory, slot, wrapped(count), after.memory),
        exists|reader| after.members.active() == #[trigger] before.members.active().update(
            slot,
            Some(reader),
        ),
    ensures
        realizes(after, state.after_attaching(slot, count)),
{
    let next = state.after_attaching(slot, count);
    before.members.lemma_members();
    assert forall|other: int| #[trigger] next.released.dom().contains(other) implies 0 <= other
        < MAX_READERS && after.memory.header.read_positions@[other] == wrapped(
        next.released[other],
    ) by {
        if other != slot {
            assert(state.released.dom().contains(other));
        }
    }
    assert forall|other: int| 0 <= other < MAX_READERS implies (
    #[trigger] after.members.active()[other] is Some <==> next.released.dom().contains(other)) by {
        if other != slot {
            assert(after.members.active()[other] == before.members.active()[other]);
            assert(before.members.active()[other] is Some <==> state.released.dom().contains(
                other,
            ));
        }
    }
}

/// Disconnecting a reader moves the ring to where that reader is gone.
pub proof fn law_detaching_realizes(
    before: ReaderRegistry,
    state: RingState,
    slot: int,
    after: ReaderRegistry,
)
    requires
        realizes(before, state),
        0 <= slot < MAX_READERS,
        after.wf(),
        detaches(before.memory, slot, after.memory),
        after.members.active() == before.members.active().update(slot, None),
    ensures
        realizes(after, state.after_detaching(slot)),
{
    let next = state.after_detaching(slot);
    before.members.lemma_members();
    assert forall|other: int| #[trigger] next.released.dom().contains(other) implies 0 <= other
        < MAX_READERS && after.memory.header.read_positions@[other] == wrapped(
        next.released[other],
    ) by {
        assert(state.released.dom().contains(other));
    }
    assert forall|other: int| 0 <= other < MAX_READERS implies (
    #[trigger] after.members.active()[other] is Some <==> next.released.dom().contains(other)) by {
        if other != slot {
            assert(after.members.active()[other] == before.members.active()[other]);
            assert(before.members.active()[other] is Some <==> state.released.dom().contains(
                other,
            ));
        }
    }
}

/// Writing `data` where the producer stands and publishing the position after it moves the
/// ring to where `data` is published.
pub proof fn law_publishing_realizes(
    before: ReaderRegistry,
    state: RingState,
    data: Seq<u8>,
    after: ReaderRegistry,
)
    requires
        realizes(before, state),
        after.wf(),
        after.members.active() == before.members.active(),
        after.memory.payload@ == overwritten(
            before.memory.payload@,
            state.published() % state.capacity,
            data,
        ),
        after.memory.header.read_positions == before.memory.header.read_positions,
        after.memory.header.write_position == wrapped(state.published() + data.len()),
    ensures
        realizes(after, state.after_publishing(data)),
{
    let next = state.after_publishing(data);
    assert forall|slot: int| 0 <= slot < MAX_READERS implies (
    #[trigger] after.members.active()[slot] is Some <==> next.released.dom().contains(slot)) by {
        assert(before.members.active()[slot] is Some <==> state.released.dom().contains(slot));
    }
}

/// Telling the producer that a reader has released `amount` more bytes moves the ring to
/// where it has.
pub proof fn law_releasing_realizes(
    before: ReaderRegistry,
    state: RingState,
    slot: int,
    amount: int,
    after: ReaderRegistry,
)
    requires
        realizes(before, state),
        state.released.dom().contains(slot),
        after.wf(),
        after.members.active() == before.members.active(),
        after.memory.payload == before.memory.payload,
        after.memory.header.write_position == before.memory.header.write_position,
        after.memory.header.read_positions@ == before.memory.header.read_positions@.update(
            slot,
            wrapped(state.released[slot] + amount),
        ),
    ensures
        realizes(after, state.after_releasing(slot, amount)),
{
    let next = state.after_releasing(slot, amount);
    assert forall|other: int| #[trigger] next.released.dom().contains(other) implies 0 <= other
        < MAX_READERS && after.memory.header.read_positions@[other] == wrapped(
        next.released[other],
    ) by {
        assert(state.released.dom().contains(other));
    }
    assert forall|other: int| 0 <= other < MAX_READERS implies (
    #[trigger] after.members.active()[other] is Some <==> next.released.dom().contains(other)) by {
        assert(before.members.active()[other] is Some <==> state.released.dom().contains(other));
    }
}

} // verus!

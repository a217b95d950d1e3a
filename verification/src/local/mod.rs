//! Ring buffers for in-process communication.
//!
//! A local ring is created as a producer and consumer pair. Further consumers are
//! clones of existing ones. The ring is gone for its producer once the last consumer
//! is.

use crate::cursor::Cursor;
use crate::error::Error;
use crate::local::consumer::Consumer;
use crate::local::producer::Producer;
use crate::local::reader::create_registry;
use crate::mapping::memory::MappedMemory;
use crate::mapping::{layout_on_machine, Layout};
use crate::ring::laws::RingState;
use crate::ring::reader::ReaderRegistry;
use crate::ring::realization::realizes;
use crate::ring::slots::holds;
use crate::view::CursorView;
use vstd::pervasive::unreached;
use vstd::prelude::*;

pub mod consumer;
pub mod notification;
pub mod producer;
pub mod reader;

verus! {

/// A new local ring: its readers, its producer and its first consumer.
#[derive(Debug)]
pub struct LocalRing {
    pub registry: ReaderRegistry,
    pub producer: CursorView<Producer>,
    pub consumer: CursorView<Consumer>,
}

impl LocalRing {
    /// Nothing has been published, and the consumer is the one attached reader.
    pub open spec fn fresh(&self) -> bool {
        &&& self.registry.wf()
        &&& self.registry.members.issued() == 1
        &&& self.producer.cursor.wf()
        &&& self.consumer.cursor.wf()
        &&& self.registry.memory.fresh()
        &&& self.producer.cursor.state.capacity == self.registry.memory.spec_capacity()
        &&& self.producer.cursor.state.write_position == 0
        &&& !self.producer.cursor.state.survives_without_readers
        &&& self.producer.cursor.state.readers.positions
            == self.registry.memory.header.read_positions
        &&& forall|slot: int| #[trigger]
            holds(self.producer.cursor.state.readers.bitmap, slot) <==> slot == 0
        &&& self.producer.reservation is None
        &&& self.consumer.cursor.state.capacity == self.registry.memory.spec_capacity()
        &&& self.consumer.cursor.state.slot == 0
        &&& self.consumer.cursor.state.read_position == 0
        &&& self.consumer.cursor.state.write_position == 0
        &&& self.consumer.reservation is None
        &&& self.registry.members.active()[0] == Some(self.consumer.cursor.guard.reader)
        &&& self.registry.members.current(self.consumer.cursor.guard.reader)
        &&& forall|slot: int|
            1 <= slot < 64 ==> #[trigger] self.registry.members.claims()[slot] is None
        &&& forall|slot: int|
            1 <= slot < 64 ==> #[trigger] self.registry.members.active()[slot] is None
    }
}

impl LocalRing {
    /// Creates a local ring with the given layout.
    pub fn with_layout(layout: &Layout) -> (ring: Self)
        requires
            layout.wf(),
        ensures
            ring.fresh(),
            ring.registry.memory.spec_capacity() == layout.capacity,
    {
        match create_registry(MappedMemory::create(layout)) {
            Ok((registry, slot, guard)) => {
                let producer = CursorView::from_cursor(Producer::new(&registry));
                let consumer = CursorView::from_cursor(Consumer::new(&registry, slot, guard));
                LocalRing { registry, producer, consumer }
            },
            Err(_) => unreached(),
        }
    }
}

/// Creates a local ring with at least the requested payload capacity.
pub fn create(minimum_capacity: usize) -> (ring: Result<LocalRing, Error>)
    ensures
        exists|page: usize|
            call_ensures(rustix::param::page_size, (), page) && match #[trigger] layout_on_machine(
                minimum_capacity as int,
                page as int,
            ) {
                Ok(layout) => ring is Ok && ring->Ok_0.registry.memory.spec_capacity()
                    == layout.capacity,
                Err(error) => ring matches Err(e) && e == error,
            },
        ring matches Ok(ring) ==> {
            &&& ring.fresh()
            &&& minimum_capacity <= ring.registry.memory.spec_capacity()
        },
{
    match Layout::for_minimum_capacity(minimum_capacity) {
        Ok(layout) => Ok(LocalRing::with_layout(&layout)),
        Err(error) => Err(error),
    }
}

/// A new local ring is ready: its producer may write the whole capacity at once, its first
/// consumer has nothing to read yet, and the two stand for a ring without traffic whose one reader
/// is at its beginning.
pub proof fn law_new_local_rings_are_ready(ring: LocalRing)
    requires
        ring.fresh(),
    ensures
        ({
            let state = RingState::initial(ring.registry.memory.payload@).after_attaching(0, 0);
            &&& state.inv()
            &&& realizes(ring.registry, state)
            &&& state.producer_at(ring.producer.cursor.state, state.released)
            &&& state.consumer_at(ring.consumer.cursor.state, 0)
        }),
        ring.producer.cursor.extent() == Ok::<int, Error>(ring.registry.memory.spec_capacity()),
        ring.producer.cursor.spec_capacity() == ring.registry.memory.spec_capacity(),
        ring.producer.cursor.spec_position() == 0,
        ring.consumer.cursor.extent() == Ok::<int, Error>(0),
        ring.consumer.cursor.spec_capacity() == ring.registry.memory.spec_capacity(),
        ring.consumer.cursor.spec_position() == 0,
        forall|index: int|
            0 <= index < ring.registry.memory.spec_capacity() ==> #[trigger]
                ring.registry.memory.payload@[index] == 0,
        ring.registry.memory.header.version == 1,
        ring.registry.memory.header.capacity == ring.registry.memory.spec_capacity(),
{
    let empty = RingState::initial(ring.registry.memory.payload@);
    let state = empty.after_attaching(0, 0);
    crate::ring::laws::lemma_initial(ring.registry.memory.payload@);
    crate::ring::laws::law_new_readers_start_at_the_producer(empty, 0);
    assert(ring.registry.memory.header.read_positions@[0] == 0);
    assert forall|slot: int| 0 <= slot < 64 implies (
    #[trigger] ring.registry.members.active()[slot] is Some <==> state.released.dom().contains(
        slot,
    )) by {
        if slot > 0 {
            assert(ring.registry.members.active()[slot] is None);
        }
    }
    assert(realizes(ring.registry, state));
    assert(state.released.dom().contains(0));
    assert(state.producer_at(ring.producer.cursor.state, state.released)) by {
        assert forall|slot: int| #[trigger] state.released.dom().contains(slot) implies slot == 0 by {}
    }
    ring.producer.cursor.law_offers_all_free_space(state);
    ring.consumer.cursor.law_offers_all_published_bytes(state, 0);
}

} // verus!

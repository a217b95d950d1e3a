//! Producer endpoint for a local ring.

use crate::cursor::{
    law_only_unavailable_bytes_are_waited_for, reservation_at, reserve_step, step_after, Cursor,
    CursorMut, Reservation, ReserveStep,
};
use crate::error::Error;
use crate::ring::header::Header;
use crate::ring::laws::{
    law_free_space_is_granted, law_producers_report_contradictions, RingState,
};
use crate::ring::membership::ActiveReaders;
use crate::ring::position::{
    lemma_capacity_divides_positions, spec_distance, valid_capacity,
};
use crate::ring::producer::{ObservedReaders, ProducerState};
use crate::ring::reader::ReaderRegistry;
use crate::ring::slots::holds;
use crate::ring::MAX_READERS;
use vstd::prelude::*;

verus! {

/// A local ring is disconnected once nobody reads.
pub const SURVIVES_WITHOUT_READERS: bool = false;

/// The write side of a local ring buffer.
#[derive(Clone, Copy, Debug)]
pub struct Producer {
    pub state: ProducerState,
}

impl Producer {
    /// Returns the producer of the ring that `registry` belongs to.
    pub fn new(registry: &ReaderRegistry) -> (producer: Self)
        requires
            registry.wf(),
        ensures
            producer.wf(),
            producer.state.capacity == registry.memory.spec_capacity(),
            producer.state.write_position == registry.memory.header.write_position,
            producer.state.readers.positions == registry.memory.header.read_positions,
            forall|slot: int|
                0 <= slot < MAX_READERS ==> (#[trigger] holds(producer.state.readers.bitmap, slot)
                    <==> registry.members.active()[slot] is Some),
    {
        let active = registry.active_readers();
        Producer::over(registry.memory.capacity(), &registry.memory.header, &active)
    }

    /// Returns the producer of the ring with this capacity, this header and these readers.
    pub fn over(capacity: usize, header: &Header, active: &ActiveReaders) -> (producer: Self)
        requires
            valid_capacity(capacity as int),
        ensures
            producer.wf(),
            producer.state.capacity == capacity,
            producer.state.write_position == header.write_position,
            producer.state.readers.positions == header.read_positions,
            producer.state.readers.bitmap == active.bitmap,
    {
        Producer {
            state: ProducerState {
                capacity,
                write_position: header.write_position,
                readers: ObservedReaders::observe(active, header),
                survives_without_readers: SURVIVES_WITHOUT_READERS,
            },
        }
    }
}

impl Cursor for Producer {
    open spec fn wf(&self) -> bool {
        self.state.wf() && !self.state.survives_without_readers
    }

    open spec fn spec_capacity(&self) -> int {
        self.state.capacity as int
    }

    open spec fn spec_position(&self) -> u64 {
        self.state.write_position
    }

    open spec fn extent(&self) -> Result<int, Error> {
        self.state.extent()
    }

    open spec fn moved_to(&self, position: u64) -> Self {
        Producer { state: ProducerState { write_position: position, ..self.state } }
    }

    proof fn lemma_extent_is_bounded(&self) {
        self.state.lemma_extent();
    }

    fn capacity(&self) -> (capacity: usize) {
        self.state.capacity
    }

    fn position(&self) -> (position: u64) {
        self.state.write_position
    }

    fn try_reserve_at(&mut self, position: u64, minimum: usize) -> (reservation: Result<
        Reservation<usize>,
        Error,
    >) {
        self.state.try_reserve_at(position, minimum)
    }

    fn reserve_at(&mut self, position: u64, minimum: usize) -> (step: Result<ReserveStep, Error>) {
        step_after(self.state.try_reserve_at(position, minimum))
    }

    fn advance_to(&mut self, position: u64) -> (outcome: Result<(), Error>)
        ensures
            outcome is Ok ==> final(self).extent() == Ok::<int, Error>(
                old(self).extent()->Ok_0 - spec_distance(old(self).spec_position(), position),
            ),
    {
        self.state.advance_to(position)
    }
}

impl Producer {
    /// The producer that looked at its readers may write exactly up to a capacity ahead of the
    /// slowest of them, and one that nobody reads is disconnected.
    pub proof fn law_offers_all_free_space(&self, state: RingState)
        requires
            self.wf(),
            state.inv(),
            state.producer_at(self.state, state.released),
        ensures
            self.spec_capacity() == state.capacity,
            self.spec_position() == state.published() % 0x1_0000_0000_0000_0000,
            !(state.released.dom() =~= Set::empty()) ==> (self.extent() matches Ok(available) && {
                &&& forall|slot: int| #[trigger]
                    state.released.dom().contains(slot) ==> state.published() + available
                        <= state.released[slot] + state.capacity
                &&& exists|slot: int| #[trigger]
                    state.released.dom().contains(slot) && state.published() + available
                        == state.released[slot] + state.capacity
            }),
            state.released.dom() =~= Set::empty() ==> self.extent() == Err::<int, Error>(Error::PeerDisconnected),
    {
        law_free_space_is_granted(state, self.state, state.released);
    }

    /// A producer that nobody reads fails at once with every valid request, and does not wait.
    pub proof fn law_abandoned_producers_do_not_wait(
        &self,
        ahead: int,
        position: u64,
        minimum: int,
    )
        requires
            self.wf(),
            forall|slot: int| 0 <= slot < MAX_READERS ==> !#[trigger] holds(
                self.state.readers.bitmap,
                slot,
            ),
            0 <= ahead,
            0 <= minimum,
            ahead + minimum <= self.spec_capacity(),
            position == (self.spec_position() + ahead) % 0x1_0000_0000_0000_0000,
        ensures
            reserve_step(
                reservation_at(
                    self.spec_capacity(),
                    self.spec_position(),
                    self.extent(),
                    position,
                    minimum,
                ),
            ) == Err::<ReserveStep, Error>(Error::PeerDisconnected),
    {
        law_producers_report_contradictions(self.state);
        lemma_capacity_divides_positions(self.spec_capacity());
        law_only_unavailable_bytes_are_waited_for(
            self.spec_capacity(),
            self.spec_position(),
            self.extent(),
            ahead,
            position,
            minimum,
        );
    }

    /// Advancing moves the position and nothing else: the capacity and what the producer saw of
    /// its readers stay, and moving back undoes it.
    pub proof fn law_moves_only_its_position(&self, position: u64)
        ensures
            self.moved_to(position).spec_position() == position,
            self.moved_to(position).spec_capacity() == self.spec_capacity(),
            self.moved_to(position).state.readers == self.state.readers,
            self.moved_to(position).moved_to(self.spec_position()) == *self,
    {
    }
}

impl CursorMut for Producer {

}

} // verus!

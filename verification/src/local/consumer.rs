//! Consumer endpoint for a local ring.

use crate::cursor::{step_after, Cursor, Reservation, ReserveStep, TryFork};
use crate::error::Error;
use crate::local::reader::{admits, Guard};
use crate::ring::consumer::ConsumerState;
use crate::ring::header::Header;
use crate::ring::laws::{law_published_bytes_are_granted, RingState};
use crate::ring::membership::{Membership, ReaderConnection};
use crate::ring::position::{spec_distance, valid_capacity};
use crate::ring::reader::{attaches_in, takes_slot, ReaderRegistry};
use crate::ring::MAX_READERS;
use vstd::prelude::*;

verus! {

/// One reader of a local in-process ring.
#[derive(Clone, Copy, Debug)]
pub struct Consumer {
    pub state: ConsumerState,
    pub guard: Guard,
}

impl Consumer {
    /// Returns the reader in `slot` of the ring that `registry` belongs to.
    pub fn new(registry: &ReaderRegistry, slot: u8, guard: Guard) -> (consumer: Self)
        requires
            registry.wf(),
            slot < MAX_READERS,
            guard.reader.spec_slot() == slot,
        ensures
            consumer.wf(),
            consumer.guard == guard,
            consumer.state == (ConsumerState {
                capacity: registry.memory.spec_capacity() as usize,
                slot,
                read_position: registry.memory.header.read_positions@[slot as int],
                write_position: registry.memory.header.write_position,
            }),
    {
        Consumer::in_slot(registry.memory.capacity(), slot, &registry.memory.header, guard)
    }

    /// Returns the reader in `slot` of the ring with this capacity and this header.
    pub fn in_slot(capacity: usize, slot: u8, header: &Header, guard: Guard) -> (consumer: Self)
        requires
            valid_capacity(capacity as int),
            slot < MAX_READERS,
            guard.reader.spec_slot() == slot,
        ensures
            consumer.wf(),
            consumer.guard == guard,
            consumer.state == (ConsumerState {
                capacity,
                slot,
                read_position: header.read_positions@[slot as int],
                write_position: header.write_position,
            }),
    {
        Consumer {
            state: ConsumerState {
                capacity,
                slot,
                read_position: header.read_positions[slot as usize],
                write_position: header.write_position,
            },
            guard,
        }
    }

    /// Creates an independent reader beginning at this reader's current cursor, on the ring
    /// with these slots and this header, if the ring still has slots.
    pub fn try_clone_in(&self, members: Option<&mut Membership>, header: &mut Header) -> (clone: Result<
        Self,
        Error,
    >)
        requires
            self.wf(),
            members matches Some(slots) ==> slots.wf() && slots.issued() < u64::MAX,
        ensures
            match members {
                None => {
                    &&& clone matches Err(error) && error == Error::PeerDisconnected
                    &&& *final(header) == *old(header)
                },
                Some(slots) => {
                    &&& final(slots).wf()
                    &&& clone is Ok <==> slots.has_room()
                    &&& match clone {
                        Ok(clone) => {
                            &&& clone.wf()
                            &&& clone.state == (ConsumerState {
                                slot: clone.state.slot,
                                ..self.state
                            })
                            &&& takes_slot(*slots, clone.guard.reader, *final(slots))
                            &&& attaches_in(
                                *old(header),
                                clone.state.slot as int,
                                self.state.read_position,
                                *final(header),
                            )
                        },
                        Err(error) => {
                            &&& error == Error::ReaderCapacityExhausted
                            &&& *final(slots) == *slots
                            &&& *final(header) == *old(header)
                        },
                    }
                },
            },
    {
        match self.guard.claim_sibling_slot(members, header, self.state.read_position) {
            Ok((slot, guard)) => Ok(Consumer { state: ConsumerState { slot, ..self.state }, guard }),
            Err(error) => Err(error),
        }
    }

    /// Creates an independent reader beginning at this reader's current cursor, if the ring
    /// still exists.
    pub fn try_clone(&self, registry: Option<&mut ReaderRegistry>) -> (clone: Result<Self, Error>)
        requires
            self.wf(),
            registry matches Some(ring) ==> ring.wf() && ring.members.issued() < u64::MAX,
        ensures
            match registry {
                None => clone matches Err(error) && error == Error::PeerDisconnected,
                Some(ring) => {
                    &&& final(ring).wf()
                    &&& clone is Ok <==> ring.members.has_room()
                    &&& match clone {
                        Ok(clone) => {
                            &&& clone.wf()
                            &&& clone.state == (ConsumerState {
                                slot: clone.state.slot,
                                ..self.state
                            })
                            &&& admits(
                                *ring,
                                self.state.read_position,
                                clone.state.slot,
                                clone.guard,
                                *final(ring),
                            )
                        },
                        Err(error) => {
                            &&& error == Error::ReaderCapacityExhausted
                            &&& *final(ring) == *ring
                        },
                    }
                },
            },
    {
        match self.guard.claim_sibling(registry, self.state.read_position) {
            Ok((slot, guard)) => Ok(Consumer { state: ConsumerState { slot, ..self.state }, guard }),
            Err(error) => Err(error),
        }
    }
}

impl Cursor for Consumer {
    open spec fn wf(&self) -> bool {
        self.state.wf() && self.guard.reader.spec_slot() == self.state.slot
    }

    open spec fn spec_capacity(&self) -> int {
        self.state.capacity as int
    }

    open spec fn spec_position(&self) -> u64 {
        self.state.read_position
    }

    open spec fn extent(&self) -> Result<int, Error> {
        self.state.extent()
    }

    open spec fn moved_to(&self, position: u64) -> Self {
        Consumer { state: ConsumerState { read_position: position, ..self.state }, ..*self }
    }

    proof fn lemma_extent_is_bounded(&self) {
    }

    fn capacity(&self) -> (capacity: usize) {
        self.state.capacity
    }

    fn position(&self) -> (position: u64) {
        self.state.read_position
    }

    fn try_reserve_at(&mut self, position: u64, minimum: usize) -> (reservation: Result<
        Reservation<usize>,
        Error,
    >) {
        self.state.try_reserve_at(position, minimum)
    }

    fn reserve_at(&mut self, position: u64, minimum: usize) -> (step: Result<ReserveStep, Error>) {
        step_after(self.state.try_reserve_at(position, minimum))
    }

    fn advance_to(&mut self, position: u64) -> (outcome: Result<(), Error>)
        ensures
            final(self).guard == old(self).guard,
            outcome is Ok ==> final(self).extent() == Ok::<int, Error>(
                old(self).extent()->Ok_0 - spec_distance(old(self).spec_position(), position),
            ),
    {
        self.state.advance_to(position)
    }
}

impl Consumer {
    /// A reader may read exactly what it saw published and has yet to release.
    pub proof fn law_offers_all_published_bytes(&self, state: RingState, seen: int)
        requires
            state.inv(),
            state.consumer_at(self.state, seen),
        ensures
            self.spec_capacity() == state.capacity,
            self.spec_position() == state.released[self.state.slot as int]
                % 0x1_0000_0000_0000_0000,
            self.extent() == Ok::<int, Error>(seen - state.released[self.state.slot as int]),
    {
        law_published_bytes_are_granted(state, self.state, seen);
    }

    /// Advancing moves the position and nothing else: the capacity, the slot and what the reader
    /// saw of the producer stay, and moving back undoes it.
    pub proof fn law_moves_only_its_position(&self, position: u64)
        ensures
            self.moved_to(position).spec_position() == position,
            self.moved_to(position).spec_capacity() == self.spec_capacity(),
            self.moved_to(position).state.slot == self.state.slot,
            self.moved_to(position).state.write_position == self.state.write_position,
            self.moved_to(position).guard == self.guard,
            self.moved_to(position).moved_to(self.spec_position()) == *self,
    {
    }
}

impl TryFork for Consumer {
    open spec fn reader(&self) -> ReaderConnection {
        self.guard.reader
    }

    fn try_fork(&self, registry: Option<&mut ReaderRegistry>) -> (fork: Result<Self, Error>)
        ensures
            registry matches Some(ring) ==> (fork matches Ok(fork) ==> admits(
                *ring,
                self.state.read_position,
                fork.state.slot,
                fork.guard,
                *final(ring),
            )),
    {
        self.try_clone(registry)
    }
}

} // verus!

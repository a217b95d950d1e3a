//! Consumer for a server-registered ring.

use crate::cursor::{step_after, Cursor, Reservation, ReserveStep};
use crate::error::{protocol, Error};
use crate::handshake::{default_timeout, whole_seconds};
use crate::ring::consumer::ConsumerState;
use crate::ring::header::Header;
use crate::ring::laws::{law_published_bytes_are_granted, RingState};
use crate::ring::position::{spec_distance, valid_capacity};
use crate::ring::MAX_READERS;
use std::time::Duration;
use vstd::prelude::*;

verus! {

/// Options for connecting to an IPC ring buffer.
#[derive(Clone, Copy, Debug)]
pub struct ConnectOptions {
    pub handshake_timeout: Duration,
}

impl ConnectOptions {
    /// Creates connection options with default settings.
    pub fn new() -> (options: Self)
        ensures
            options.handshake_timeout == whole_seconds(1),
    {
        ConnectOptions { handshake_timeout: default_timeout() }
    }

    /// Sets how long a connection attempt may take.
    pub fn handshake_timeout(self, timeout: Duration) -> (options: Self)
        ensures
            options == (ConnectOptions { handshake_timeout: timeout, ..self }),
    {
        ConnectOptions { handshake_timeout: timeout, ..self }
    }
}

impl Default for ConnectOptions {
    fn default() -> (options: Self)
        ensures
            options.handshake_timeout == whole_seconds(1),
    {
        ConnectOptions::new()
    }
}

/// State of one reader attached through a server.
#[derive(Clone, Copy, Debug)]
pub struct Consumer {
    pub state: ConsumerState,
}

impl Consumer {
    /// Returns the reader that the server attached in `slot` of a ring with `capacity` bytes
    /// and `header`.
    pub fn from_attachment(slot: u8, capacity: usize, header: &Header) -> (consumer: Result<
        Self,
        Error,
    >)
        requires
            valid_capacity(capacity as int),
        ensures
            match consumer {
                Ok(consumer) => {
                    &&& slot < MAX_READERS
                    &&& consumer.wf()
                    &&& consumer.state == (ConsumerState {
                        capacity,
                        slot,
                        read_position: header.read_positions@[slot as int],
                        write_position: header.write_position,
                    })
                },
                Err(error) => {
                    &&& slot >= MAX_READERS
                    &&& error == Error::Protocol("reader slot is out of range")
                },
            },
    {
        if slot as usize >= MAX_READERS {
            return Err(protocol("reader slot is out of range"));
        }
        Ok(
            Consumer {
                state: ConsumerState {
                    capacity,
                    slot,
                    read_position: header.read_positions[slot as usize],
                    write_position: header.write_position,
                },
            },
        )
    }
}

impl Cursor for Consumer {
    open spec fn wf(&self) -> bool {
        self.state.wf()
    }

    open spec fn spec_capacity(&self) -> int {
        self.state.capacity as int
    }

    open spec fn spec_position(&self) -> u64 {
        self.state.read_position
    }

    open spec fn extent(&self) -> Result<int, Error> {
        self.state.extent()
    }

    open spec fn moved_to(&self, position: u64) -> Self {
        Consumer { state: ConsumerState { read_position: position, ..self.state } }
    }

    proof fn lemma_extent_is_bounded(&self) {
    }

    fn capacity(&self) -> (capacity: usize) {
        self.state.capacity
    }

    fn position(&self) -> (position: u64) {
        self.state.read_position
    }

    fn try_reserve_at(&mut self, position: u64, minimum: usize) -> (reservation: Result<
        Reservation<usize>,
        Error,
    >) {
        self.state.try_reserve_at(position, minimum)
    }

    fn reserve_at(&mut self, position: u64, minimum: usize) -> (step: Result<ReserveStep, Error>) {
        step_after(self.state.try_reserve_at(position, minimum))
    }

    fn advance_to(&mut self, position: u64) -> (outcome: Result<(), Error>)
        ensures
            outcome is Ok ==> final(self).extent() == Ok::<int, Error>(
                old(self).extent()->Ok_0 - spec_distance(old(self).spec_position(), position),
            ),
    {
        self.state.advance_to(position)
    }
}

impl Consumer {
    /// A reader may read exactly what it saw published and has yet to release.
    pub proof fn law_offers_all_published_bytes(&self, state: RingState, seen: int)
        requires
            state.inv(),
            state.consumer_at(self.state, seen),
        ensures
            self.spec_capacity() == state.capacity,
            self.spec_position() == state.released[self.state.slot as int]
                % 0x1_0000_0000_0000_0000,
            self.extent() == Ok::<int, Error>(seen - state.released[self.state.slot as int]),
    {
        law_published_bytes_are_granted(state, self.state, seen);
    }

    /// Advancing moves the position and nothing else: the capacity, the slot and what the reader
    /// saw of the producer stay, and moving back undoes it.
    pub proof fn law_moves_only_its_position(&self, position: u64)
        ensures
            self.moved_to(position).spec_position() == position,
            self.moved_to(position).spec_capacity() == self.spec_capacity(),
            self.moved_to(position).state.slot == self.state.slot,
            self.moved_to(position).state.write_position == self.state.write_position,
            self.moved_to(position).moved_to(self.spec_position()) == *self,
    {
    }
}

} // verus!

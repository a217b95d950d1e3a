//! What a reader may reserve and release.

use crate::cursor::{
    advance_outcome, advance_within, reservation_at, reserve_within, widened, Reservation,
};
use crate::error::{corrupt_state, Error};
use crate::ring::header::Header;
use crate::ring::position::{distance, spec_distance, valid_capacity};
use crate::ring::MAX_READERS;
use vstd::prelude::*;

verus! {

/// How many bytes a reader at `read` may read where `write` is published. More than a
/// capacity between them contradicts the ring.
pub open spec fn readable(capacity: int, read: u64, write: u64) -> Result<int, Error> {
    let published = spec_distance(read, write);
    if published > capacity {
        Err(Error::CorruptState)
    } else {
        Ok(published)
    }
}

/// A reader's own cursor, and how far it last saw the producer.
#[derive(Clone, Copy, Debug)]
pub struct ConsumerState {
    pub capacity: usize,
    pub slot: u8,
    pub read_position: u64,
    pub write_position: u64,
}

impl ConsumerState {
    /// The capacity and the slot are valid.
    pub open spec fn wf(&self) -> bool {
        &&& valid_capacity(self.capacity as int)
        &&& self.slot < MAX_READERS
    }

    /// What the reader may read, by its last observation.
    pub open spec fn extent(&self) -> Result<int, Error> {
        readable(self.capacity as int, self.read_position, self.write_position)
    }

    /// Returns what the reader may read, by its last observation.
    pub fn readable(&self) -> (extent: Result<usize, Error>)
        requires
            self.wf(),
        ensures
            widened(extent) == self.extent(),
            extent matches Ok(available) ==> available <= self.capacity,
    {
        let published: u64 = distance(self.read_position, self.write_position);
        if published > self.capacity as u64 {
            Err(corrupt_state())
        } else {
            Ok(published as usize)
        }
    }

    /// Takes note of how far the producer has published.
    pub fn observe(&mut self, write_position: u64)
        ensures
            *final(self) == (ConsumerState { write_position, ..*old(self) }),
    {
        self.write_position = write_position;
    }

    /// Takes note of how far the producer has published, from the shared header.
    pub fn observe_header(&mut self, header: &Header)
        ensures
            *final(self) == (ConsumerState {
                write_position: header.write_position,
                ..*old(self)
            }),
    {
        self.observe(header.write_position);
    }

    /// Tells the producer how far this reader has read.
    pub fn release(&self, header: &mut Header)
        requires
            self.wf(),
        ensures
            final(header).read_positions@ == old(header).read_positions@.update(
                self.slot as int,
                self.read_position,
            ),
            final(header).version == old(header).version,
            final(header).capacity == old(header).capacity,
            final(header).write_position == old(header).write_position,
            final(header).data_waiters == old(header).data_waiters,
            final(header).space_waiters == old(header).space_waiters,
    {
        header.read_positions[self.slot as usize] = self.read_position;
    }

    /// Reserves at least `minimum` published bytes from `position` on.
    pub fn try_reserve_at(&self, position: u64, minimum: usize) -> (reservation: Result<
        Reservation<usize>,
        Error,
    >)
        requires
            self.wf(),
        ensures
            reservation == reservation_at(
                self.capacity as int,
                self.read_position,
                self.extent(),
                position,
                minimum as int,
            ),
    {
        reserve_within(self.capacity, self.read_position, self.readable(), position, minimum)
    }

    /// Releases every byte before `position`.
    pub fn advance_to(&mut self, position: u64) -> (outcome: Result<(), Error>)
        requires
            old(self).wf(),
        ensures
            outcome == advance_outcome(old(self).read_position, old(self).extent(), position),
            *final(self) == (if outcome is Ok {
                ConsumerState { read_position: position, ..*old(self) }
            } else {
                *old(self)
            }),
            outcome is Ok ==> final(self).extent() == Ok::<int, Error>(
                old(self).extent()->Ok_0 - spec_distance(old(self).read_position, position),
            ),
    {
        match advance_within(self.read_position, self.readable(), position) {
            Ok(()) => {
                self.read_position = position;
                Ok(())
            },
            Err(error) => Err(error),
        }
    }
}

} // verus!

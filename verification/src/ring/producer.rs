//! What the producer may reserve and publish.

use crate::cursor::{
    advance_outcome, advance_within, reservation_at, reserve_within, widened, Reservation,
};
use crate::error::{corrupt_state, peer_disconnected, Error};
use crate::ring::header::Header;
use crate::ring::membership::ActiveReaders;
use crate::ring::position::{
    distance, lemma_capacity_divides_positions, lemma_distances_add, positions, spec_distance,
    valid_capacity,
};
use crate::ring::slots::{contains, holds, lemma_empty, lemma_same_members};
use crate::ring::MAX_READERS;
use vstd::prelude::*;

verus! {

/// The attached readers, and how far the producer last saw each of them.
#[derive(Clone, Copy, Debug)]
pub struct ObservedReaders {
    /// The set of attached readers.
    pub bitmap: u64,
    /// The position of each of them.
    pub positions: [u64; 64],
}

impl ObservedReaders {
    /// How many published bytes the reader in `slot` has yet to release.
    pub open spec fn backlog(&self, write: u64, slot: int) -> int {
        spec_distance(self.positions@[slot], write)
    }

    /// The largest backlog among the attached readers in the first `slots` slots, which is
    /// that of the slowest one, or zero where there is none.
    pub open spec fn largest_backlog(&self, write: u64, slots: int) -> int
        decreases slots,
    {
        if slots <= 0 {
            0
        } else {
            let before = self.largest_backlog(write, slots - 1);
            let own = self.backlog(write, slots - 1);
            if holds(self.bitmap, slots - 1) && own > before {
                own
            } else {
                before
            }
        }
    }

    /// Whether any reader is attached.
    pub open spec fn any(&self) -> bool {
        exists|slot: int| 0 <= slot < MAX_READERS && #[trigger] holds(self.bitmap, slot)
    }

    /// The largest backlog bounds every reader's, and is some reader's if there is any.
    pub proof fn lemma_largest_backlog(&self, write: u64, slots: int)
        requires
            0 <= slots <= MAX_READERS,
        ensures
            0 <= self.largest_backlog(write, slots) < positions(),
            forall|slot: int|
                0 <= slot < slots && #[trigger] holds(self.bitmap, slot) ==> self.backlog(write, slot)
                    <= self.largest_backlog(write, slots),
            (exists|slot: int| 0 <= slot < slots && #[trigger] holds(self.bitmap, slot)) ==> exists|
                slot: int,
            |
                0 <= slot < slots && #[trigger] holds(self.bitmap, slot) && self.backlog(write, slot)
                    == self.largest_backlog(write, slots),
            (forall|slot: int| 0 <= slot < slots ==> !#[trigger] holds(self.bitmap, slot))
                ==> self.largest_backlog(write, slots) == 0,
        decreases slots,
    {
        if slots > 0 {
            self.lemma_largest_backlog(write, slots - 1);
            let last = slots - 1;
            if holds(self.bitmap, last) && self.backlog(write, last) > self.largest_backlog(
                write,
                slots - 1,
            ) {
                assert(self.backlog(write, last) == self.largest_backlog(write, slots));
            } else if holds(self.bitmap, last) {
                if forall|slot: int| 0 <= slot < last ==> !#[trigger] holds(self.bitmap, slot) {
                    assert(self.backlog(write, last) == 0);
                    assert(self.backlog(write, last) == self.largest_backlog(write, slots));
                }
            }
        }
    }

    /// Publishing `amount` bytes grows the slowest reader's backlog by as much.
    pub proof fn lemma_backlog_grows(&self, before: u64, after: u64, slots: int)
        requires
            0 <= slots <= MAX_READERS,
            self.largest_backlog(before, slots) + spec_distance(before, after) < positions(),
            exists|slot: int| 0 <= slot < slots && #[trigger] holds(self.bitmap, slot),
        ensures
            self.largest_backlog(after, slots) == self.largest_backlog(before, slots)
                + spec_distance(before, after),
    {
        let amount = spec_distance(before, after);
        self.lemma_largest_backlog(before, slots);
        self.lemma_largest_backlog(after, slots);
        assert forall|slot: int|
            0 <= slot < slots && #[trigger] holds(self.bitmap, slot) implies self.backlog(after, slot)
            == self.backlog(before, slot) + amount by {
            lemma_distances_add(self.positions@[slot], before, after);
        }
        let slowest = choose|slot: int|
            0 <= slot < slots && #[trigger] holds(self.bitmap, slot) && self.backlog(before, slot)
                == self.largest_backlog(before, slots);
        let still = choose|slot: int|
            0 <= slot < slots && #[trigger] holds(self.bitmap, slot) && self.backlog(after, slot)
                == self.largest_backlog(after, slots);
        assert(self.backlog(after, slowest) <= self.largest_backlog(after, slots));
        assert(self.backlog(before, still) <= self.largest_backlog(before, slots));
    }

    /// Observes the positions of the attached readers.
    pub fn observe(active: &ActiveReaders, header: &Header) -> (readers: Self)
        ensures
            readers.bitmap == active.bitmap,
            readers.positions == header.read_positions,
    {
        ObservedReaders { bitmap: active.bitmap, positions: header.read_positions }
    }
}

/// How many bytes the producer may write where `write` is published: the slowest reader's
/// backlog is kept. More than a capacity of it contradicts the ring. Without readers, a
/// ring that survives them takes a whole capacity, and any other one is disconnected.
pub open spec fn writable(
    capacity: int,
    readers: ObservedReaders,
    write: u64,
    survives: bool,
) -> Result<int, Error> {
    let backlog = readers.largest_backlog(write, MAX_READERS as int);
    if !readers.any() && !survives {
        Err(Error::PeerDisconnected)
    } else if backlog > capacity {
        Err(Error::CorruptState)
    } else {
        Ok(capacity - backlog)
    }
}

/// The producer's own cursor, and how far it last saw its readers.
///
/// A producer looks at its readers before it reserves. One that saw nobody looks again before
/// it advances once more, as a reader may have attached in between.
#[derive(Clone, Copy, Debug)]
pub struct ProducerState {
    pub capacity: usize,
    pub write_position: u64,
    pub readers: ObservedReaders,
    /// Whether the ring stays writable without readers.
    pub survives_without_readers: bool,
}

impl ProducerState {
    /// The capacity is valid.
    pub open spec fn wf(&self) -> bool {
        valid_capacity(self.capacity as int)
    }

    /// What the producer may write, by its last observation.
    pub open spec fn extent(&self) -> Result<int, Error> {
        writable(
            self.capacity as int,
            self.readers,
            self.write_position,
            self.survives_without_readers,
        )
    }

    /// What the producer may write after it publishes `amount` bytes of `available` ones:
    /// the rest, or everything again where no reader keeps it.
    pub open spec fn extent_after(&self, available: int, amount: int) -> Result<int, Error> {
        if self.readers.any() {
            Ok(available - amount)
        } else {
            Ok(available)
        }
    }

    /// What is writable never exceeds the capacity.
    pub proof fn lemma_extent(&self)
        requires
            self.wf(),
        ensures
            self.extent() matches Ok(available) ==> 0 <= available <= self.capacity,
    {
        self.readers.lemma_largest_backlog(self.write_position, MAX_READERS as int);
    }

    /// Returns what the producer may write, by its last observation.
    pub fn writable(&self) -> (extent: Result<usize, Error>)
        requires
            self.wf(),
        ensures
            widened(extent) == self.extent(),
            extent matches Ok(available) ==> available <= self.capacity,
    {
        proof {
            assert forall|slot: int| !holds(0, slot) by {
                lemma_empty(slot);
            }
            if !self.readers.any() {
                lemma_same_members(self.readers.bitmap, 0);
            }
        }
        if self.readers.bitmap == 0 && !self.survives_without_readers {
            return Err(peer_disconnected());
        }
        let mut largest: u64 = 0;
        let mut slot: u8 = 0;
        while slot < 64
            invariant
                slot <= 64,
                largest == self.readers.largest_backlog(self.write_position, slot as int),
            decreases 64 - slot,
        {
            if contains(self.readers.bitmap, slot) {
                let backlog: u64 = distance(
                    self.readers.positions[slot as usize],
                    self.write_position,
                );
                if backlog > largest {
                    largest = backlog;
                }
            }
            slot = slot + 1;
        }
        if largest > self.capacity as u64 {
            Err(corrupt_state())
        } else {
            Ok(self.capacity - largest as usize)
        }
    }

    /// Returns the reader that holds the producer back the most, which is the one to wait for:
    /// of several, the one in the lowest slot.
    pub fn slowest_reader(&self) -> (slowest: Option<u8>)
        ensures
            slowest is None <==> !self.readers.any(),
            slowest matches Some(slot) ==> {
                &&& slot < MAX_READERS
                &&& holds(self.readers.bitmap, slot as int)
                &&& self.readers.backlog(self.write_position, slot as int)
                    == self.readers.largest_backlog(self.write_position, MAX_READERS as int)
                &&& forall|other: int|
                    0 <= other < MAX_READERS && #[trigger] holds(self.readers.bitmap, other)
                        ==> spec_distance(self.readers.positions@[other], self.write_position)
                        <= spec_distance(self.readers.positions@[slot as int], self.write_position)
                &&& forall|other: int|
                    0 <= other < slot && #[trigger] holds(self.readers.bitmap, other)
                        ==> spec_distance(self.readers.positions@[other], self.write_position)
                        < spec_distance(self.readers.positions@[slot as int], self.write_position)
            },
    {
        proof {
            self.readers.lemma_largest_backlog(self.write_position, MAX_READERS as int);
        }
        let mut slowest: Option<u8> = None;
        let mut largest: u64 = 0;
        let mut slot: u8 = 0;
        while slot < 64
            invariant
                slot <= 64,
                largest == self.readers.largest_backlog(self.write_position, slot as int),
                match slowest {
                    Some(found) => {
                        &&& found < slot
                        &&& holds(self.readers.bitmap, found as int)
                        &&& self.readers.backlog(self.write_position, found as int) == largest
                        &&& forall|other: int|
                            0 <= other < found && #[trigger] holds(self.readers.bitmap, other)
                                ==> self.readers.backlog(self.write_position, other) < largest
                        &&& forall|other: int|
                            0 <= other < slot && #[trigger] holds(self.readers.bitmap, other)
                                ==> self.readers.backlog(self.write_position, other) <= largest
                    },
                    None => {
                        &&& largest == 0
                        &&& forall|other: int|
                            0 <= other < slot ==> !#[trigger] holds(self.readers.bitmap, other)
                    },
                },
            decreases 64 - slot,
        {
            if contains(self.readers.bitmap, slot) {
                let backlog: u64 = distance(
                    self.readers.positions[slot as usize],
                    self.write_position,
                );
                if slowest.is_none() || backlog > largest {
                    slowest = Some(slot);
                    largest = backlog;
                }
            }
            slot = slot + 1;
        }
        slowest
    }

    /// Takes note of the attached readers and of how far they have read.
    pub fn observe(&mut self, readers: ObservedReaders)
        ensures
            *final(self) == (ProducerState { readers, ..*old(self) }),
    {
        self.readers = readers;
    }

    /// Tells the readers how far the producer has published.
    pub fn publish(&self, header: &mut Header)
        ensures
            *final(header) == (Header { write_position: self.write_position, ..*old(header) }),
    {
        header.write_position = self.write_position;
    }

    /// Reserves at least `minimum` writable bytes from `position` on.
    pub fn try_reserve_at(&self, position: u64, minimum: usize) -> (reservation: Result<
        Reservation<usize>,
        Error,
    >)
        requires
            self.wf(),
        ensures
            reservation == reservation_at(
                self.capacity as int,
                self.write_position,
                self.extent(),
                position,
                minimum as int,
            ),
    {
        reserve_within(self.capacity, self.write_position, self.writable(), position, minimum)
    }

    /// Publishes every byte before `position`.
    pub fn advance_to(&mut self, position: u64) -> (outcome: Result<(), Error>)
        requires
            old(self).wf(),
        ensures
            outcome == advance_outcome(old(self).write_position, old(self).extent(), position),
            *final(self) == (if outcome is Ok {
                ProducerState { write_position: position, ..*old(self) }
            } else {
                *old(self)
            }),
            outcome is Ok ==> final(self).extent() == old(self).extent_after(
                old(self).extent()->Ok_0,
                spec_distance(old(self).write_position, position),
            ),
    {
        match advance_within(self.write_position, self.writable(), position) {
            Ok(()) => {
                proof {
                    lemma_capacity_divides_positions(self.capacity as int);
                    self.readers.lemma_largest_backlog(self.write_position, MAX_READERS as int);
                    self.readers.lemma_largest_backlog(position, MAX_READERS as int);
                    if self.readers.any() {
                        self.readers.lemma_backlog_grows(
                            self.write_position,
                            position,
                            MAX_READERS as int,
                        );
                    }
                }
                self.write_position = position;
                Ok(())
            },
            Err(error) => Err(error),
        }
    }
}

} // verus!

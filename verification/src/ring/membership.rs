//! Which reader slots of a ring are reserved, and which are active.
//!
//! A slot is reserved while a reader attaches and while it is attached, and active
//! only while it is attached. Each reservation has an identity of its own, so that
//! a handle that outlived its reservation cannot disturb the slot's next reader.

use crate::error::{reader_capacity_exhausted, Error};
use crate::ring::slots::{contains, holds, lemma_empty, with, without};
use crate::ring::MAX_READERS;
use vstd::prelude::*;

verus! {

/// One reservation of a reader slot.
#[derive(Clone, Copy, Debug, PartialEq, Eq, Structural)]
pub struct ReaderConnection {
    slot: u8,
    id: u64,
}

impl ReaderConnection {
    /// The reserved slot.
    pub closed spec fn spec_slot(self) -> int {
        self.slot as int
    }

    /// What tells this reservation from every other one.
    pub closed spec fn identity(self) -> int {
        self.id as int
    }

    /// Returns the reserved slot.
    pub fn slot(&self) -> (slot: u8)
        ensures
            slot == self.spec_slot(),
    {
        self.slot
    }
}

/// The attached readers at one moment.
#[derive(Clone, Copy, Debug)]
pub struct ActiveReaders {
    /// The set of active slots.
    pub bitmap: u64,
    /// The reader of each active slot.
    pub connections: [Option<ReaderConnection>; 64],
}

impl ActiveReaders {
    /// The set holds exactly the slots that have a reader.
    pub open spec fn wf(&self) -> bool {
        forall|slot: int|
            0 <= slot < MAX_READERS ==> (#[trigger] holds(self.bitmap, slot)
                <==> self.connections@[slot] is Some)
    }
}

/// The reader slots of one ring.
#[derive(Debug)]
pub struct Membership {
    claims: [Option<ReaderConnection>; 64],
    reserved: u64,
    active: ActiveReaders,
    issued: u64,
}

impl Membership {
    /// The reservation that each slot is under, if any.
    pub closed spec fn claims(&self) -> Seq<Option<ReaderConnection>> {
        self.claims@
    }

    /// The attached reader of each slot, if any.
    pub closed spec fn active(&self) -> Seq<Option<ReaderConnection>> {
        self.active.connections@
    }

    /// How many reservations have been made so far.
    pub closed spec fn issued(&self) -> int {
        self.issued as int
    }

    /// The slots agree with their sets, a reservation knows its slot, identities are
    /// the ones issued so far and never shared, and only reserved slots are active.
    pub closed spec fn wf(&self) -> bool {
        &&& self.active.wf()
        &&& forall|slot: int|
            0 <= slot < MAX_READERS ==> (#[trigger] holds(self.reserved, slot)
                <==> self.claims@[slot] is Some)
        &&& forall|slot: int|
            0 <= slot < MAX_READERS ==> (#[trigger] self.claims@[slot] matches Some(reader)
                ==> reader.slot == slot && reader.id < self.issued)
        &&& forall|a: int, b: int|
            0 <= a < MAX_READERS && 0 <= b < MAX_READERS && a != b
                && #[trigger] self.claims@[a] is Some && #[trigger] self.claims@[b] is Some
                ==> self.claims@[a]->0.id != self.claims@[b]->0.id
        &&& forall|slot: int|
            0 <= slot < MAX_READERS ==> (#[trigger] self.active.connections@[slot] is Some
                ==> self.active.connections@[slot] == self.claims@[slot])
    }

    /// Whether `reader` is the reservation that its slot is under now.
    pub open spec fn current(&self, reader: ReaderConnection) -> bool {
        &&& 0 <= reader.spec_slot() < MAX_READERS
        &&& self.claims()[reader.spec_slot()] == Some(reader)
    }

    /// Whether some slot is free.
    pub open spec fn has_room(&self) -> bool {
        exists|slot: int| 0 <= slot < MAX_READERS && #[trigger] self.claims()[slot] is None
    }

    /// What every well-formed membership satisfies: there is one entry per slot, a
    /// reservation stands in its own slot, no two reservations are the same one, and
    /// the active readers are among the reserved ones.
    pub proof fn lemma_members(&self)
        requires
            self.wf(),
        ensures
            self.claims().len() == MAX_READERS,
            self.active().len() == MAX_READERS,
            forall|slot: int|
                0 <= slot < MAX_READERS ==> (#[trigger] self.claims()[slot] matches Some(reader)
                    ==> reader.spec_slot() == slot && reader.identity() < self.issued()),
            forall|a: int, b: int|
                0 <= a < MAX_READERS && 0 <= b < MAX_READERS && a != b
                    && #[trigger] self.claims()[a] is Some && #[trigger] self.claims()[b] is Some
                    ==> self.claims()[a]->0.identity() != self.claims()[b]->0.identity(),
            forall|slot: int|
                0 <= slot < MAX_READERS ==> (#[trigger] self.active()[slot] is Some
                    ==> self.active()[slot] == self.claims()[slot]),
    {
    }

    /// Returns a membership without readers.
    pub fn new() -> (fresh: Self)
        ensures
            fresh.wf(),
            fresh.issued() == 0,
            forall|slot: int| 0 <= slot < MAX_READERS ==> #[trigger] fresh.claims()[slot] is None,
            forall|slot: int| 0 <= slot < MAX_READERS ==> #[trigger] fresh.active()[slot] is None,
    {
        assert forall|slot: int| !holds(0, slot) by {
            lemma_empty(slot);
        }
        Membership {
            claims: [None;64],
            reserved: 0,
            active: ActiveReaders { bitmap: 0, connections: [None;64] },
            issued: 0,
        }
    }

    /// Reserves the lowest free slot.
    pub fn reserve_reader(&mut self) -> (reader: Result<ReaderConnection, Error>)
        requires
            old(self).wf(),
            old(self).issued() < u64::MAX,
        ensures
            final(self).wf(),
            final(self).active() == old(self).active(),
            reader is Ok <==> old(self).has_room(),
            match reader {
                Ok(reader) => {
                    &&& 0 <= reader.spec_slot() < MAX_READERS
                    &&& old(self).claims()[reader.spec_slot()] is None
                    &&& forall|lower: int|
                        0 <= lower < reader.spec_slot()
                            ==> #[trigger] old(self).claims()[lower] is Some
                    &&& reader.identity() == old(self).issued()
                    &&& final(self).issued() == old(self).issued() + 1
                    &&& final(self).claims() == old(self).claims().update(
                        reader.spec_slot(),
                        Some(reader),
                    )
                },
                Err(error) => {
                    &&& error == Error::ReaderCapacityExhausted
                    &&& *final(self) == *old(self)
                },
            },
    {
        let mut slot: u8 = 0;
        while slot < 64 && contains(self.reserved, slot)
            invariant
                slot <= 64,
                self.wf(),
                *self == *old(self),
                forall|lower: int| 0 <= lower < slot ==> #[trigger] self.claims@[lower] is Some,
            decreases 64 - slot,
        {
            assert(holds(self.reserved, slot as int));
            slot = slot + 1;
        }
        if slot == 64 {
            assert(forall|lower: int| 0 <= lower < 64 ==> #[trigger] old(self).claims()[lower] is Some);
            return Err(reader_capacity_exhausted());
        }
        assert(!holds(self.reserved, slot as int));
        assert(old(self).claims()[slot as int] is None);
        let reader = ReaderConnection { slot, id: self.issued };
        self.reserved = with(self.reserved, slot);
        self.claims[slot as usize] = Some(reader);
        self.issued = self.issued + 1;
        Ok(reader)
    }

    /// Makes `reader` active, unless its reservation has ended. Returns whether it is
    /// active now.
    pub fn activate(&mut self, reader: &ReaderConnection) -> (activated: bool)
        requires
            old(self).wf(),
        ensures
            final(self).wf(),
            final(self).claims() == old(self).claims(),
            final(self).issued() == old(self).issued(),
            activated == old(self).current(*reader),
            final(self).active() == (if activated {
                old(self).active().update(reader.spec_slot(), Some(*reader))
            } else {
                old(self).active()
            }),
    {
        if !self.is_current(reader) {
            return false;
        }
        self.active.bitmap = with(self.active.bitmap, reader.slot);
        self.active.connections[reader.slot as usize] = Some(*reader);
        true
    }

    /// Ends the reservation of `reader`, unless it has ended already. Returns whether
    /// it ended now.
    pub fn remove(&mut self, reader: &ReaderConnection) -> (removed: bool)
        requires
            old(self).wf(),
        ensures
            final(self).wf(),
            final(self).issued() == old(self).issued(),
            removed == old(self).current(*reader),
            removed ==> {
                &&& final(self).claims() == old(self).claims().update(reader.spec_slot(), None)
                &&& final(self).active() == old(self).active().update(reader.spec_slot(), None)
            },
            !removed ==> *final(self) == *old(self),
    {
        if !self.is_current(reader) {
            return false;
        }
        self.active.bitmap = without(self.active.bitmap, reader.slot);
        self.active.connections[reader.slot as usize] = None;
        self.reserved = without(self.reserved, reader.slot);
        self.claims[reader.slot as usize] = None;
        true
    }

    /// Returns whether `reader` is the reservation that its slot is under now.
    pub fn is_current(&self, reader: &ReaderConnection) -> (current: bool)
        requires
            self.wf(),
        ensures
            current == self.current(*reader),
    {
        if reader.slot >= 64 {
            return false;
        }
        match self.claims[reader.slot as usize] {
            Some(claimed) => claimed.slot == reader.slot && claimed.id == reader.id,
            None => false,
        }
    }

    /// Returns the attached readers.
    pub fn active_readers(&self) -> (readers: ActiveReaders)
        requires
            self.wf(),
        ensures
            readers.wf(),
            readers.connections@ == self.active(),
    {
        self.active
    }

    /// Returns the set of reserved slots.
    pub fn reserved_slots(&self) -> (reserved: u64)
        requires
            self.wf(),
        ensures
            forall|slot: int|
                0 <= slot < MAX_READERS ==> (#[trigger] holds(reserved, slot)
                    <==> self.claims()[slot] is Some),
    {
        self.reserved
    }

    /// Returns how many reservations have been made so far.
    pub fn reservations(&self) -> (issued: u64)
        ensures
            issued == self.issued(),
    {
        self.issued
    }
}

} // verus!

//! The readers of a ring, together with the memory that they share.

use crate::error::Error;
use crate::mapping::memory::MappedMemory;
use crate::ring::header::Header;
use crate::ring::membership::{ActiveReaders, Membership, ReaderConnection};
use crate::ring::slots::holds;
use crate::ring::MAX_READERS;
use vstd::prelude::*;

verus! {

/// The readers of one ring.
#[derive(Debug)]
pub struct ReaderRegistry {
    pub memory: MappedMemory,
    pub members: Membership,
}

impl ReaderRegistry {
    /// The memory and the slots are each well-formed.
    pub open spec fn wf(&self) -> bool {
        &&& self.memory.wf()
        &&& self.members.wf()
    }

    /// Returns the registry of a ring without readers.
    pub fn new(memory: MappedMemory) -> (registry: Self)
        requires
            memory.wf(),
        ensures
            registry.wf(),
            registry.memory == memory,
            registry.members.issued() == 0,
            forall|slot: int|
                0 <= slot < MAX_READERS ==> #[trigger] registry.members.claims()[slot] is None,
            forall|slot: int|
                0 <= slot < MAX_READERS ==> #[trigger] registry.members.active()[slot] is None,
    {
        ReaderRegistry { memory, members: Membership::new() }
    }

    /// Reserves the lowest free slot.
    pub fn reserve_reader(&mut self) -> (reader: Result<ReaderConnection, Error>)
        requires
            old(self).wf(),
            old(self).members.issued() < u64::MAX,
        ensures
            final(self).wf(),
            final(self).memory == old(self).memory,
            final(self).members.active() == old(self).members.active(),
            reader is Ok <==> old(self).members.has_room(),
            match reader {
                Ok(reader) => reserves(old(self).members, reader, final(self).members),
                Err(error) => {
                    &&& error == Error::ReaderCapacityExhausted
                    &&& *final(self) == *old(self)
                },
            },
    {
        self.members.reserve_reader()
    }

    /// Attaches `reader` at `position`, unless its reservation has ended. Returns whether
    /// it is attached now.
    pub fn activate_at(&mut self, reader: &ReaderConnection, position: u64) -> (activated: bool)
        requires
            old(self).wf(),
        ensures
            final(self).wf(),
            activated == old(self).members.current(*reader),
            !activated ==> final(self).memory == old(self).memory,
            final(self).members.claims() == old(self).members.claims(),
            final(self).members.issued() == old(self).members.issued(),
            final(self).members.active() == (if activated {
                old(self).members.active().update(reader.spec_slot(), Some(*reader))
            } else {
                old(self).members.active()
            }),
            activated ==> attaches(
                old(self).memory,
                reader.spec_slot(),
                position,
                final(self).memory,
            ),
    {
        attach_reader(&mut self.members, &mut self.memory.header, reader, position)
    }

    /// Detaches `reader` and frees its slot, unless its reservation has ended already.
    /// Returns whether it ended now.
    pub fn disconnect(&mut self, reader: &ReaderConnection) -> (disconnected: bool)
        requires
            old(self).wf(),
        ensures
            final(self).wf(),
            disconnected == old(self).members.current(*reader),
            final(self).members.issued() == old(self).members.issued(),
            disconnected ==> {
                &&& final(self).members.claims() == old(self).members.claims().update(
                    reader.spec_slot(),
                    None,
                )
                &&& final(self).members.active() == old(self).members.active().update(
                    reader.spec_slot(),
                    None,
                )
                &&& detaches(old(self).memory, reader.spec_slot(), final(self).memory)
            },
            !disconnected ==> *final(self) == *old(self),
    {
        detach_reader(&mut self.members, &mut self.memory.header, reader)
    }

    /// Returns the position after the last published byte.
    pub fn write_position(&self) -> (position: u64)
        ensures
            position == self.memory.header.write_position,
    {
        self.memory.header.write_position
    }

    /// Returns the attached readers.
    pub fn active_readers(&self) -> (readers: ActiveReaders)
        requires
            self.wf(),
        ensures
            readers.wf(),
            readers.connections@ == self.members.active(),
    {
        self.members.active_readers()
    }

    /// Returns the set of reserved slots.
    pub fn reserved_slots(&self) -> (reserved: u64)
        requires
            self.wf(),
        ensures
            forall|slot: int|
                0 <= slot < MAX_READERS ==> (#[trigger] holds(reserved, slot)
                    <==> self.members.claims()[slot] is Some),
    {
        self.members.reserved_slots()
    }
}

/// How the slots change when `reader` reserves the lowest free one of them.
pub open spec fn reserves(before: Membership, reader: ReaderConnection, after: Membership) -> bool {
    &&& 0 <= reader.spec_slot() < MAX_READERS
    &&& before.claims()[reader.spec_slot()] is None
    &&& forall|lower: int|
        0 <= lower < reader.spec_slot() ==> #[trigger] before.claims()[lower] is Some
    &&& reader.identity() == before.issued()
    &&& after.issued() == before.issued() + 1
    &&& after.claims() == before.claims().update(reader.spec_slot(), Some(reader))
    &&& after.active() == before.active()
}

/// How the memory changes when the reader in `slot` attaches at `position`.
pub open spec fn attaches(before: MappedMemory, slot: int, position: u64, after: MappedMemory) -> bool {
    &&& after.payload == before.payload
    &&& attaches_in(before.header, slot, position, after.header)
}

/// How the header changes when the reader in `slot` attaches at `position`.
pub open spec fn attaches_in(before: Header, slot: int, position: u64, after: Header) -> bool {
    &&& after.version == before.version
    &&& after.capacity == before.capacity
    &&& after.write_position == before.write_position
    &&& after.data_waiters == before.data_waiters
    &&& after.space_waiters == before.space_waiters
    &&& after.read_positions@ == before.read_positions@.update(slot, position)
}

/// How the memory changes when the reader in `slot` leaves: nothing waits for it any
/// more, and it waits for nothing.
pub open spec fn detaches(before: MappedMemory, slot: int, after: MappedMemory) -> bool {
    &&& after.payload == before.payload
    &&& detaches_in(before.header, slot, after.header)
}

/// How the header changes when the reader in `slot` leaves.
pub open spec fn detaches_in(before: Header, slot: int, after: Header) -> bool {
    &&& after.version == before.version
    &&& after.capacity == before.capacity
    &&& after.write_position == before.write_position
    &&& after.read_positions == before.read_positions
    &&& forall|other: int| #[trigger]
        holds(after.data_waiters, other) == (holds(before.data_waiters, other) && other != slot)
    &&& forall|other: int| #[trigger]
        holds(after.space_waiters, other) == (holds(before.space_waiters, other) && other != slot)
}

/// Attaches `reader` at `position` of the ring with these slots and this header, unless its
/// reservation has ended. Returns whether it is attached now.
pub fn attach_reader(
    members: &mut Membership,
    header: &mut Header,
    reader: &ReaderConnection,
    position: u64,
) -> (attached: bool)
    requires
        old(members).wf(),
    ensures
        final(members).wf(),
        attached == old(members).current(*reader),
        final(members).claims() == old(members).claims(),
        final(members).issued() == old(members).issued(),
        final(members).active() == (if attached {
            old(members).active().update(reader.spec_slot(), Some(*reader))
        } else {
            old(members).active()
        }),
        attached ==> attaches_in(*old(header), reader.spec_slot(), position, *final(header)),
        !attached ==> *final(header) == *old(header),
{
    if members.activate(reader) {
        header.read_positions[reader.slot() as usize] = position;
        true
    } else {
        false
    }
}

/// Detaches `reader` from the ring with these slots and this header and frees its slot, unless
/// its reservation has ended already. Returns whether it ended now.
pub fn detach_reader(members: &mut Membership, header: &mut Header, reader: &ReaderConnection) -> (detached:
    bool)
    requires
        old(members).wf(),
    ensures
        final(members).wf(),
        detached == old(members).current(*reader),
        detached ==> {
            &&& removes(*old(members), *reader, *final(members))
            &&& detaches_in(*old(header), reader.spec_slot(), *final(header))
        },
        !detached ==> *final(members) == *old(members) && *final(header) == *old(header),
{
    if members.remove(reader) {
        header.forget_waiter(reader.slot());
        true
    } else {
        false
    }
}

/// How a registry changes when `reader` takes the lowest free slot and attaches there at
/// `position`.
pub open spec fn admitted(
    before: ReaderRegistry,
    position: u64,
    reader: ReaderConnection,
    after: ReaderRegistry,
) -> bool {
    &&& takes_slot(before.members, reader, after.members)
    &&& attaches(before.memory, reader.spec_slot(), position, after.memory)
}

/// How the slots change when `reader` takes the lowest free one of them and attaches there.
pub open spec fn takes_slot(before: Membership, reader: ReaderConnection, after: Membership) -> bool {
    let slot = reader.spec_slot();
    &&& 0 <= slot < MAX_READERS
    &&& before.claims()[slot] is None
    &&& forall|lower: int| 0 <= lower < slot ==> #[trigger] before.claims()[lower] is Some
    &&& reader.identity() == before.issued()
    &&& after.issued() == before.issued() + 1
    &&& after.claims() == before.claims().update(slot, Some(reader))
    &&& after.active() == before.active().update(slot, Some(reader))
}

/// A reader that is admitted has a slot of its own: every reader that was on the ring stays
/// in its slot, at its position, and reads through another slot than the new one.
pub proof fn law_admission_disturbs_nobody(
    before: ReaderRegistry,
    position: u64,
    reader: ReaderConnection,
    after: ReaderRegistry,
    other: ReaderConnection,
)
    requires
        before.wf(),
        admitted(before, position, reader, after),
        before.members.current(other),
    ensures
        other != reader,
        other.spec_slot() != reader.spec_slot(),
        after.members.current(other),
        after.members.current(reader),
        after.members.active()[other.spec_slot()] == before.members.active()[other.spec_slot()],
        after.members.active()[reader.spec_slot()] == Some(reader),
        after.memory.header.read_positions@[other.spec_slot()]
            == before.memory.header.read_positions@[other.spec_slot()],
        after.memory.header.read_positions@[reader.spec_slot()] == position,
{
    before.members.lemma_members();
}

/// How the slots change when `reader` is taken off the ring.
pub open spec fn removes(before: Membership, reader: ReaderConnection, after: Membership) -> bool {
    &&& after.claims() == before.claims().update(reader.spec_slot(), None)
    &&& after.active() == before.active().update(reader.spec_slot(), None)
    &&& after.issued() == before.issued()
}

/// A claim that is given back, whether or not it was activated in between, leaves the slots
/// as they were before it: every slot has the reservation and the reader that it had.
pub proof fn law_claims_roll_back(
    before: Membership,
    reader: ReaderConnection,
    claimed: Membership,
    activated: Membership,
    after: Membership,
)
    requires
        before.wf(),
        reserves(before, reader, claimed),
        activated.claims() == claimed.claims(),
        activated.active() == claimed.active() || activated.active() == claimed.active().update(
            reader.spec_slot(),
            Some(reader),
        ),
        removes(activated, reader, after),
    ensures
        claimed.active() == before.active(),
        after.claims() == before.claims(),
        after.active() == before.active(),
{
    before.lemma_members();
    assert(before.active()[reader.spec_slot()] is None);
    assert(after.claims() =~= before.claims());
    assert(after.active() =~= before.active());
}

/// A reservation that has ended never comes back: the slot's next reservation is another
/// one, so that a handle of the ended one is refused from then on.
pub proof fn law_ended_reservations_stay_ended(
    before: Membership,
    ended: ReaderConnection,
    next: ReaderConnection,
    after: Membership,
)
    requires
        before.wf(),
        !before.current(ended),
        ended.identity() < before.issued(),
        reserves(before, next, after),
    ensures
        !after.current(ended),
        after.current(next),
        ended.identity() < after.issued(),
{
    before.lemma_members();
}

/// Taking a reader off the ring disturbs no other slot.
pub proof fn law_removal_disturbs_nobody(
    before: Membership,
    reader: ReaderConnection,
    after: Membership,
    other: int,
)
    requires
        before.wf(),
        before.current(reader),
        removes(before, reader, after),
        0 <= other < MAX_READERS,
        other != reader.spec_slot(),
    ensures
        after.claims()[other] == before.claims()[other],
        after.active()[other] == before.active()[other],
        after.has_room(),
        !after.current(reader),
        after.claims()[reader.spec_slot()] is None,
        after.active()[reader.spec_slot()] is None,
        after.issued() == before.issued(),
{
    before.lemma_members();
    assert(after.claims()[reader.spec_slot()] is None);
}

/// A ring has room for sixty-four readers: another one is admitted exactly while one of so many
/// slots is free, and it then takes the lowest one that is.
pub proof fn law_readers_take_the_lowest_free_slot(
    before: Membership,
    reader: ReaderConnection,
    after: Membership,
    slot: int,
)
    requires
        before.wf(),
        0 <= slot < 64,
    ensures
        before.claims()[slot] is None ==> before.has_room(),
        !before.has_room() <==> forall|taken: int|
            0 <= taken < 64 ==> #[trigger] before.claims()[taken] is Some,
        reserves(before, reader, after) || takes_slot(before, reader, after) ==> {
            &&& before.claims()[slot] is None ==> reader.spec_slot() <= slot
            &&& before.claims()[reader.spec_slot()] is None
            &&& after.current(reader)
            &&& slot != reader.spec_slot() ==> after.claims()[slot] == before.claims()[slot]
            &&& slot != reader.spec_slot() ==> after.active()[slot] == before.active()[slot]
            &&& after.issued() == before.issued() + 1
        },
        reserves(before, reader, after) ==> after.active()[slot] == before.active()[slot],
        takes_slot(before, reader, after) ==> after.active()[reader.spec_slot()] == Some(reader),
{
    before.lemma_members();
}

/// Whatever a reader reserved, taking its slot at once or attaching later comes to the same.
pub proof fn law_attaching_later_comes_to_the_same(
    before: Membership,
    reader: ReaderConnection,
    reserved: Membership,
    after: Membership,
)
    requires
        before.wf(),
        reserves(before, reader, reserved),
        after.claims() == reserved.claims(),
        after.issued() == reserved.issued(),
        after.active() == reserved.active().update(reader.spec_slot(), Some(reader)),
    ensures
        takes_slot(before, reader, after),
{
}

/// Attaching a reader sets the position of its slot and nothing else that the ring shares: not the
/// bytes, not the producer's position, no other reader's, and nobody who waits.
pub proof fn law_attaching_sets_one_position(
    before: MappedMemory,
    slot: int,
    position: u64,
    after: MappedMemory,
    other: int,
)
    requires
        attaches(before, slot, position, after),
        0 <= slot < 64,
        0 <= other < 64,
    ensures
        after.header.read_positions@[slot] == position,
        other != slot ==> after.header.read_positions@[other] == before.header.read_positions@[other],
        after.payload@ == before.payload@,
        after.header.write_position == before.header.write_position,
        after.header.capacity == before.header.capacity,
        after.header.version == before.header.version,
        holds(after.header.data_waiters, other) == holds(before.header.data_waiters, other),
        holds(after.header.space_waiters, other) == holds(before.header.space_waiters, other),
{
}

/// A reader that leaves waits for nothing and is waited for by nobody, while everybody else waits
/// on; every position and every byte stays.
pub proof fn law_leaving_ends_the_waits(
    before: MappedMemory,
    slot: int,
    after: MappedMemory,
    other: int,
)
    requires
        detaches(before, slot, after),
        0 <= slot < 64,
        0 <= other < 64,
    ensures
        !holds(after.header.data_waiters, slot),
        !holds(after.header.space_waiters, slot),
        other != slot ==> holds(after.header.data_waiters, other) == holds(
            before.header.data_waiters,
            other,
        ),
        other != slot ==> holds(after.header.space_waiters, other) == holds(
            before.header.space_waiters,
            other,
        ),
        after.header.read_positions@[other] == before.header.read_positions@[other],
        after.header.write_position == before.header.write_position,
        after.header.capacity == before.header.capacity,
        after.header.version == before.header.version,
        after.payload@ == before.payload@,
{
}

} // verus!

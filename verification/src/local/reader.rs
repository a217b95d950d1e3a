//! Local reader admission and the guards of local readers.

use crate::error::{peer_disconnected, Error};
use crate::mapping::memory::MappedMemory;
use crate::ring::header::Header;
use crate::ring::membership::{Membership, ReaderConnection};
use crate::ring::reader::{
    admitted, attach_reader, attaches, attaches_in, takes_slot, ReaderRegistry,
};
use crate::ring::MAX_READERS;
use vstd::prelude::*;

verus! {

/// Stands for one local reader, which it takes off the ring when it is released.
#[derive(Clone, Copy, Debug)]
pub struct Guard {
    pub reader: ReaderConnection,
}

/// How a registry changes when the reader of `guard` takes the lowest free slot and
/// attaches there at `position`.
pub open spec fn admits(
    before: ReaderRegistry,
    position: u64,
    slot: u8,
    guard: Guard,
    after: ReaderRegistry,
) -> bool {
    &&& guard.reader.spec_slot() == slot
    &&& admitted(before, position, guard.reader, after)
}

/// Creates a registry that holds the local ring's first reader.
pub fn create_registry(memory: MappedMemory) -> (created: Result<
    (ReaderRegistry, u8, Guard),
    Error,
>)
    requires
        memory.wf(),
    ensures
        created is Ok,
        ({
            let (registry, slot, guard) = created->Ok_0;
            &&& registry.wf()
            &&& registry.members.issued() == 1
            &&& slot == 0
            &&& guard.reader.spec_slot() == 0
            &&& attaches(memory, 0, 0, registry.memory)
            &&& registry.members.current(guard.reader)
            &&& registry.members.active()[0] == Some(guard.reader)
            &&& forall|other: int|
                1 <= other < MAX_READERS ==> #[trigger] registry.members.claims()[other] is None
            &&& forall|other: int|
                1 <= other < MAX_READERS ==> #[trigger] registry.members.active()[other] is None
        }),
{
    let mut registry = ReaderRegistry::new(memory);
    proof {
        registry.members.lemma_members();
        assert(registry.members.claims()[0] is None);
    }
    let ghost fresh = registry.members;
    match claim(&mut registry, 0) {
        Ok((slot, guard)) => {
            proof {
                if slot > 0 {
                    assert(fresh.claims()[0] is Some);
                }
            }
            Ok((registry, slot, guard))
        },
        Err(error) => Err(error),
    }
}

/// Takes the lowest free slot and attaches a reader there at `read_position`.
pub fn claim(registry: &mut ReaderRegistry, read_position: u64) -> (claimed: Result<
    (u8, Guard),
    Error,
>)
    requires
        old(registry).wf(),
        old(registry).members.issued() < u64::MAX,
    ensures
        final(registry).wf(),
        claimed is Ok <==> old(registry).members.has_room(),
        match claimed {
            Ok((slot, guard)) => admits(
                *old(registry),
                read_position,
                slot,
                guard,
                *final(registry),
            ),
            Err(error) => {
                &&& error == Error::ReaderCapacityExhausted
                &&& *final(registry) == *old(registry)
            },
        },
{
    claim_slot(&mut registry.members, &mut registry.memory.header, read_position)
}

/// Takes the lowest free slot of the ring with these slots and this header, and attaches a
/// reader there at `read_position`.
pub fn claim_slot(members: &mut Membership, header: &mut Header, read_position: u64) -> (claimed:
    Result<(u8, Guard), Error>)
    requires
        old(members).wf(),
        old(members).issued() < u64::MAX,
    ensures
        final(members).wf(),
        claimed is Ok <==> old(members).has_room(),
        match claimed {
            Ok((slot, guard)) => {
                &&& guard.reader.spec_slot() == slot
                &&& takes_slot(*old(members), guard.reader, *final(members))
                &&& attaches_in(*old(header), slot as int, read_position, *final(header))
            },
            Err(error) => {
                &&& error == Error::ReaderCapacityExhausted
                &&& *final(members) == *old(members)
                &&& *final(header) == *old(header)
            },
        },
{
    let reader = match members.reserve_reader() {
        Ok(reader) => reader,
        Err(error) => return Err(error),
    };
    proof {
        old(members).lemma_members();
    }
    let slot: u8 = reader.slot();
    attach_reader(members, header, &reader, read_position);
    Ok((slot, Guard { reader }))
}

impl Guard {
    /// Takes a slot of the ring with these slots and this header for another reader at
    /// `read_position`, if the ring still has slots. The header outlives them.
    pub fn claim_sibling_slot(
        &self,
        members: Option<&mut Membership>,
        header: &mut Header,
        read_position: u64,
    ) -> (claimed: Result<(u8, Guard), Error>)
        requires
            members matches Some(slots) ==> slots.wf() && slots.issued() < u64::MAX,
        ensures
            match members {
                None => {
                    &&& claimed matches Err(error) && error == Error::PeerDisconnected
                    &&& *final(header) == *old(header)
                },
                Some(slots) => {
                    &&& final(slots).wf()
                    &&& claimed is Ok <==> slots.has_room()
                    &&& match claimed {
                        Ok((slot, guard)) => {
                            &&& guard.reader.spec_slot() == slot
                            &&& takes_slot(*slots, guard.reader, *final(slots))
                            &&& attaches_in(
                                *old(header),
                                slot as int,
                                read_position,
                                *final(header),
                            )
                        },
                        Err(error) => {
                            &&& error == Error::ReaderCapacityExhausted
                            &&& *final(slots) == *slots
                            &&& *final(header) == *old(header)
                        },
                    }
                },
            },
    {
        match members {
            None => Err(peer_disconnected()),
            Some(slots) => claim_slot(slots, header, read_position),
        }
    }

    /// Takes a slot of the same ring for another reader at `read_position`, if the ring still
    /// exists.
    pub fn claim_sibling(&self, registry: Option<&mut ReaderRegistry>, read_position: u64) -> (claimed:
        Result<(u8, Guard), Error>)
        requires
            registry matches Some(ring) ==> ring.wf() && ring.members.issued() < u64::MAX,
        ensures
            match registry {
                None => claimed matches Err(error) && error == Error::PeerDisconnected,
                Some(ring) => {
                    &&& final(ring).wf()
                    &&& claimed is Ok <==> ring.members.has_room()
                    &&& match claimed {
                        Ok((slot, guard)) => admits(
                            *ring,
                            read_position,
                            slot,
                            guard,
                            *final(ring),
                        ),
                        Err(error) => {
                            &&& error == Error::ReaderCapacityExhausted
                            &&& *final(ring) == *ring
                        },
                    }
                },
            },
    {
        match registry {
            None => Err(peer_disconnected()),
            Some(ring) => claim(ring, read_position),
        }
    }

    /// Takes the reader off the ring, if the ring still exists and the reader is still on it.
    pub fn release(self, registry: Option<&mut ReaderRegistry>) -> (released: bool)
        requires
            registry matches Some(ring) ==> ring.wf(),
        ensures
            match registry {
                None => !released,
                Some(ring) => {
                    &&& final(ring).wf()
                    &&& released == ring.members.current(self.reader)
                    &&& final(ring).members.issued() == ring.members.issued()
                    &&& released ==> {
                        &&& final(ring).members.claims() == ring.members.claims().update(
                            self.reader.spec_slot(),
                            None,
                        )
                        &&& final(ring).members.active() == ring.members.active().update(
                            self.reader.spec_slot(),
                            None,
                        )
                        &&& crate::ring::reader::detaches(
                            ring.memory,
                            self.reader.spec_slot(),
                            final(ring).memory,
                        )
                    }
                    &&& !released ==> *final(ring) == *ring
                },
            },
    {
        match registry {
            None => false,
            Some(ring) => ring.disconnect(&self.reader),
        }
    }
}

} // verus!

//! Rings that a server routes clients to.

use crate::error::Error;
use crate::ipc::reader::{claim, ReaderClaim};
use crate::mapping::memory::MappedMemory;
use crate::mapping::{attachment, law_created_rings_attach, layout_on_machine, Layout};
use crate::ring::laws::RingState;
use crate::ring::reader::{reserves, ReaderRegistry};
use crate::ring::realization::{law_new_rings_are_initial, realizes};
use crate::ring::MAX_READERS;
use vstd::prelude::*;

verus! {

/// A ring's memory and reader slots, as a server keeps them registered.
#[derive(Debug)]
pub struct RegisteredRing {
    pub readers: ReaderRegistry,
}

impl RegisteredRing {
    /// The readers are well-formed.
    pub open spec fn wf(&self) -> bool {
        self.readers.wf()
    }

    /// The memory is fresh, and nobody reads.
    pub open spec fn fresh(&self) -> bool {
        &&& self.wf()
        &&& self.readers.memory.fresh()
        &&& self.readers.members.issued() == 0
        &&& forall|slot: int|
            0 <= slot < MAX_READERS ==> #[trigger] self.readers.members.claims()[slot] is None
        &&& forall|slot: int|
            0 <= slot < MAX_READERS ==> #[trigger] self.readers.members.active()[slot] is None
    }

    /// Allocates a ring with the given layout that accepts readers.
    pub fn with_layout(layout: &Layout) -> (ring: Self)
        requires
            layout.wf(),
        ensures
            ring.fresh(),
            ring.readers.memory.spec_capacity() == layout.capacity,
    {
        RegisteredRing { readers: ReaderRegistry::new(MappedMemory::create(layout)) }
    }

    /// Allocates a ring with at least `minimum_capacity` bytes that accepts readers.
    pub fn create(minimum_capacity: usize) -> (ring: Result<Self, Error>)
        ensures
            exists|page: usize|
                call_ensures(rustix::param::page_size, (), page)
                    && match #[trigger] layout_on_machine(minimum_capacity as int, page as int) {
                    Ok(layout) => ring is Ok && ring->Ok_0.readers.memory.spec_capacity()
                        == layout.capacity,
                    Err(error) => ring matches Err(e) && e == error,
                },
            ring matches Ok(ring) ==> {
                &&& ring.fresh()
                &&& minimum_capacity <= ring.readers.memory.spec_capacity()
            },
    {
        match Layout::for_minimum_capacity(minimum_capacity) {
            Ok(layout) => Ok(RegisteredRing::with_layout(&layout)),
            Err(error) => Err(error),
        }
    }

    /// Clients can attach to a new ring: whatever bytes trail it, its header leads them to the
    /// layout that it was created with.
    pub proof fn law_new_rings_attach(&self, layout: Layout, shared_memory_len: u64)
        requires
            self.fresh(),
            layout.wf(),
            layout.capacity == self.readers.memory.spec_capacity(),
            layout.shared_memory_len <= shared_memory_len,
        ensures
            attachment(
                self.readers.memory.header.version,
                self.readers.memory.header.capacity,
                shared_memory_len,
                layout.page_size as int,
            ) == Ok::<Layout, Error>(layout),
    {
        law_created_rings_attach(layout, shared_memory_len);
    }

    /// Reserves one reader slot for an attachment handled by the server.
    pub fn claim_reader(&mut self) -> (claimed: Result<ReaderClaim, Error>)
        requires
            old(self).wf(),
            old(self).readers.members.issued() < u64::MAX,
        ensures
            final(self).wf(),
            final(self).readers.memory == old(self).readers.memory,
            claimed is Ok <==> old(self).readers.members.has_room(),
            match claimed {
                Ok(claim) => {
                    &&& reserves(
                        old(self).readers.members,
                        claim.reader,
                        final(self).readers.members,
                    )
                    &&& final(self).readers.members.current(claim.reader)
                },
                Err(error) => {
                    &&& error == Error::ReaderCapacityExhausted
                    &&& *final(self) == *old(self)
                },
            },
    {
        claim(&mut self.readers)
    }
}

/// A new registered ring stands for a ring without traffic and without readers, whose payload is
/// zeroed and whose header is published with its capacity. All of its slots are free.
pub proof fn law_new_registered_rings_are_empty(ring: RegisteredRing, slot: int)
    requires
        ring.fresh(),
        0 <= slot < 64,
    ensures
        RingState::initial(ring.readers.memory.payload@).inv(),
        realizes(ring.readers, RingState::initial(ring.readers.memory.payload@)),
        ring.readers.members.claims()[slot] is None,
        ring.readers.members.has_room(),
        ring.readers.memory.header.read_positions@[slot] == 0,
        ring.readers.memory.header.version == 1,
        ring.readers.memory.header.capacity == ring.readers.memory.spec_capacity(),
        forall|index: int|
            0 <= index < ring.readers.memory.spec_capacity() ==> #[trigger]
                ring.readers.memory.payload@[index] == 0,
{
    law_new_rings_are_initial(ring.readers);
}

} // verus!

//! IPC reader admission across the attachment handshake.

use crate::error::Error;
use crate::ring::membership::ReaderConnection;
use crate::ring::reader::{attaches, detaches, reserves, ReaderRegistry};
use vstd::prelude::*;

verus! {

/// Reserved reader slot that is given back unless its handshake finishes.
#[derive(Debug)]
pub struct ReaderClaim {
    pub reader: ReaderConnection,
}

/// Reserves a slot while the client maps and validates the shared memory.
pub fn claim(registry: &mut ReaderRegistry) -> (claim: Result<ReaderClaim, Error>)
    requires
        old(registry).wf(),
        old(registry).members.issued() < u64::MAX,
    ensures
        final(registry).wf(),
        final(registry).memory == old(registry).memory,
        final(registry).members.active() == old(registry).members.active(),
        claim is Ok <==> old(registry).members.has_room(),
        match claim {
            Ok(claim) => {
                &&& reserves(old(registry).members, claim.reader, final(registry).members)
                &&& final(registry).members.current(claim.reader)
            },
            Err(error) => {
                &&& error == Error::ReaderCapacityExhausted
                &&& *final(registry) == *old(registry)
            },
        },
{
    proof {
        registry.members.lemma_members();
    }
    match registry.reserve_reader() {
        Ok(reader) => Ok(ReaderClaim { reader }),
        Err(error) => Err(error),
    }
}

/// Gives a claimed slot back, unless it was given back already. Returns whether it was
/// given back now.
pub fn rollback_claim(claim: ReaderClaim, registry: &mut ReaderRegistry) -> (released: bool)
    requires
        old(registry).wf(),
    ensures
        final(registry).wf(),
        released == old(registry).members.current(claim.reader),
        final(registry).members.issued() == old(registry).members.issued(),
        released ==> {
            &&& final(registry).members.claims() == old(registry).members.claims().update(
                claim.reader.spec_slot(),
                None,
            )
            &&& final(registry).members.active() == old(registry).members.active().update(
                claim.reader.spec_slot(),
                None,
            )
            &&& detaches(old(registry).memory, claim.reader.spec_slot(), final(registry).memory)
        },
        !released ==> *final(registry) == *old(registry),
{
    registry.disconnect(&claim.reader)
}

impl ReaderClaim {
    /// Returns the slot sent in the successful attachment handshake.
    pub fn slot(&self) -> (slot: u8)
        ensures
            slot == self.reader.spec_slot(),
    {
        self.reader.slot()
    }

    /// Attaches this reader at the producer's position, immediately before the final
    /// handshake message. Returns whether it is attached now, which it is unless its claim
    /// was given back.
    pub fn activate(&mut self, registry: &mut ReaderRegistry) -> (activated: bool)
        requires
            old(registry).wf(),
        ensures
            *final(self) == *old(self),
            final(registry).wf(),
            activated == old(registry).members.current(old(self).reader),
            final(registry).members.claims() == old(registry).members.claims(),
            final(registry).members.issued() == old(registry).members.issued(),
            activated ==> {
                &&& final(registry).members.active() == old(registry).members.active().update(
                    old(self).reader.spec_slot(),
                    Some(old(self).reader),
                )
                &&& attaches(
                    old(registry).memory,
                    old(self).reader.spec_slot(),
                    old(registry).memory.header.write_position,
                    final(registry).memory,
                )
            },
            !activated ==> {
                &&& final(registry).members.active() == old(registry).members.active()
                &&& final(registry).memory == old(registry).memory
            },
    {
        let write_position: u64 = registry.write_position();
        registry.activate_at(&self.reader, write_position)
    }

    /// Makes this reader permanent: the registry keeps its slot until it disconnects.
    pub fn finish(self) -> (reader: ReaderConnection)
        ensures
            reader == self.reader,
    {
        self.reader
    }
}

} // verus!

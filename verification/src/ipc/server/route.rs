//! Whether a client that asked for a port is admitted.

use crate::error::{port_not_found, Error};
use crate::handshake::protocol::{
    status_answer, status_bytes, Rejection, Status, StatusStep,
};
use crate::ipc::reader::ReaderClaim;
use crate::ipc::registered::RegisteredRing;
use crate::ring::reader::reserves;
use vstd::prelude::*;

verus! {

/// What a client is answered whose port has the live ring `found`, if it has one, where the
/// attempt to claim a slot of that ring ended so.
pub open spec fn admission_outcome<C>(found: Option<Result<C, Error>>) -> Result<C, Rejection> {
    match found {
        None => Err(Rejection { status: Status::NotFound, error: Error::PortNotFound }),
        Some(Ok(claim)) => Ok(claim),
        Some(Err(error)) => Err(Rejection { status: Status::Busy, error }),
    }
}

/// Decides what a client is answered, from the claim on the ring of its port, if there is
/// such a ring.
pub fn admission<C>(found: Option<Result<C, Error>>) -> (admission: Result<C, Rejection>)
    ensures
        admission == admission_outcome(found),
{
    match found {
        None => Err(Rejection { status: Status::NotFound, error: port_not_found() }),
        Some(Ok(claim)) => Ok(claim),
        Some(Err(error)) => Err(Rejection { status: Status::Busy, error }),
    }
}

/// Admits a client to the live ring of the port that it asked for, if there is one and it has
/// a free reader slot.
pub fn route(ring: Option<&mut RegisteredRing>) -> (admission: Result<ReaderClaim, Rejection>)
    requires
        ring matches Some(found) ==> found.wf() && found.readers.members.issued() < u64::MAX,
    ensures
        match ring {
            None => admission matches Err(rejection) && rejection == (Rejection {
                status: Status::NotFound,
                error: Error::PortNotFound,
            }),
            Some(found) => {
                &&& final(found).wf()
                &&& final(found).readers.memory == found.readers.memory
                &&& admission is Ok <==> found.readers.members.has_room()
                &&& match admission {
                    Ok(claim) => {
                        &&& reserves(
                            found.readers.members,
                            claim.reader,
                            final(found).readers.members,
                        )
                        &&& final(found).readers.members.current(claim.reader)
                    },
                    Err(rejection) => {
                        &&& rejection == (Rejection {
                            status: Status::Busy,
                            error: Error::ReaderCapacityExhausted,
                        })
                        &&& *final(found) == *found
                    },
                }
            },
        },
{
    match ring {
        None => admission(None),
        Some(found) => admission(Some(found.claim_reader())),
    }
}

/// A client that is not admitted learns the very error that the server refused it with.
pub proof fn law_refused_clients_learn_why(rejection: Rejection)
    requires
        rejection == (Rejection { status: Status::NotFound, error: Error::PortNotFound })
            || rejection == (Rejection {
            status: Status::Busy,
            error: Error::ReaderCapacityExhausted,
        }),
    ensures
        status_answer(status_bytes(rejection.status, None)) == Err::<StatusStep, Error>(
            rejection.error,
        ),
{
}

/// A client is admitted with the very claim that its port's ring granted, and otherwise learns
/// what kept it out: that the port has no ring, or that the ring has no slot for it.
pub proof fn law_claims_admit<C>(claim: C)
    ensures
        admission_outcome(Some(Ok::<C, Error>(claim))) == Ok::<C, Rejection>(claim),
        admission_outcome(None::<Result<C, Error>>) is Err,
        status_answer(
            status_bytes(admission_outcome(None::<Result<C, Error>>)->Err_0.status, None),
        ) == Err::<StatusStep, Error>(Error::PortNotFound),
        admission_outcome(None::<Result<C, Error>>)->Err_0.error == Error::PortNotFound,
        forall|error: Error| #[trigger]
            admission_outcome(Some(Err::<C, Error>(error))) matches Err(rejection) && {
                &&& rejection.error == error
                &&& status_answer(status_bytes(rejection.status, None)) == Err::<StatusStep, Error>(
                    Error::ReaderCapacityExhausted,
                )
            },
{
}

} // verus!

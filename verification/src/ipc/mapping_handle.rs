//! Checks on the transfer of a mapping between peers.

use crate::error::{Error, ErrorKind};
use vstd::bytes::{spec_u64_from_le_bytes, spec_u64_to_le_bytes, u64_from_le_bytes, u64_to_le_bytes};
use vstd::prelude::*;

verus! {

/// Checks that the carrier byte of a transfer went out.
pub fn validate_sent(sent: usize) -> (outcome: Result<(), Error>)
    ensures
        outcome == (if sent == 0 {
            Err(Error::Bare(ErrorKind::WriteZero))
        } else {
            Ok(())
        }),
{
    if sent == 0 {
        Err(Error::Bare(ErrorKind::WriteZero))
    } else {
        Ok(())
    }
}

/// Takes the one descriptor out of a received transfer.
///
/// A transfer of `received` carrier bytes is over if there are none. Otherwise it must hold
/// exactly one descriptor, and none of its ancillary data may have been cut off.
pub fn validate_received_descriptor<D>(received: usize, truncated: bool, descriptors: Vec<D>) -> (descriptor:
    Result<D, Error>)
    ensures
        descriptor == received_descriptor(received, truncated, descriptors@),
{
    if received == 0 {
        return Err(Error::Bare(ErrorKind::UnexpectedEof));
    }
    if truncated || descriptors.len() != 1 {
        return Err(
            Error::InvalidTransfer("mapping transfer must contain exactly one descriptor"),
        );
    }
    let mut descriptors = descriptors;
    Ok(descriptors.swap_remove(0))
}

/// The one descriptor of a received transfer, or what is wrong with the transfer.
pub open spec fn received_descriptor<D>(
    received: usize,
    truncated: bool,
    descriptors: Seq<D>,
) -> Result<D, Error> {
    if received == 0 {
        Err(Error::Bare(ErrorKind::UnexpectedEof))
    } else if truncated || descriptors.len() != 1 {
        Err(Error::InvalidTransfer("mapping transfer must contain exactly one descriptor"))
    } else {
        Ok(descriptors[0])
    }
}

/// Returns the bytes that carry the value of a handle.
pub fn encode_handle(handle: u64) -> (bytes: Vec<u8>)
    ensures
        bytes@ == spec_u64_to_le_bytes(handle),
        bytes@.len() == 8,
{
    u64_to_le_bytes(handle)
}

/// The handle whose value `bytes` carry. Neither zero nor the all-ones pattern is one.
pub open spec fn handle_outcome(bytes: Seq<u8>) -> Result<u64, Error> {
    let value = spec_u64_from_le_bytes(bytes);
    if value == 0 || value == u64::MAX {
        Err(Error::InvalidTransfer("mapping transfer contains an invalid handle"))
    } else {
        Ok(value)
    }
}

/// Reads the value of a handle.
pub fn decode_handle(bytes: &[u8]) -> (handle: Result<u64, Error>)
    requires
        bytes@.len() == 8,
    ensures
        handle == handle_outcome(bytes@),
{
    let value: u64 = u64_from_le_bytes(bytes);
    if value == 0 || value == u64::MAX {
        return Err(Error::InvalidTransfer("mapping transfer contains an invalid handle"));
    }
    Ok(value)
}

/// A client receives the handle that the server sent.
pub proof fn law_handles_arrive(handle: u64)
    requires
        handle != 0,
        handle != u64::MAX,
    ensures
        handle_outcome(spec_u64_to_le_bytes(handle)) == Ok::<u64, Error>(handle),
{
    vstd::bytes::lemma_auto_spec_u64_to_from_le_bytes();
}

/// A transfer gives its descriptor exactly where carrier bytes came, nothing was cut off and it
/// held that one alone. Without carrier bytes the peer is gone, whatever else came.
pub proof fn law_transfers_hold_one_descriptor<D>(
    received: usize,
    truncated: bool,
    descriptors: Seq<D>,
    descriptor: D,
)
    ensures
        received_descriptor(received, truncated, descriptors) == Ok::<D, Error>(descriptor)
            <==> received > 0 && !truncated && descriptors == seq![descriptor],
        received_descriptor(received, truncated, descriptors) is Err <==> received == 0 || truncated
            || descriptors.len() != 1,
        received == 0 ==> received_descriptor(received, truncated, descriptors) == Err::<D, Error>(
            Error::Bare(ErrorKind::UnexpectedEof),
        ),
        received > 0 && (truncated || descriptors.len() != 1) ==> received_descriptor(
            received,
            truncated,
            descriptors,
        ) == Err::<D, Error>(
            Error::InvalidTransfer("mapping transfer must contain exactly one descriptor"),
        ),
{
    if received_descriptor(received, truncated, descriptors) == Ok::<D, Error>(descriptor) {
        assert(descriptors =~= seq![descriptor]);
    }
}

/// Neither zero nor the all-ones pattern arrives as a handle, and every other value does, from
/// exactly the bytes that stand for it.
pub proof fn law_only_two_values_are_no_handles(handle: u64, bytes: Seq<u8>)
    requires
        bytes.len() == 8,
    ensures
        handle == 0 || handle == u64::MAX ==> handle_outcome(spec_u64_to_le_bytes(handle)) == Err::<
            u64,
            Error,
        >(Error::InvalidTransfer("mapping transfer contains an invalid handle")),
        handle_outcome(bytes) == Ok::<u64, Error>(handle) ==> spec_u64_to_le_bytes(handle) == bytes,
        handle_outcome(bytes) is Err ==> bytes == spec_u64_to_le_bytes(0) || bytes
            == spec_u64_to_le_bytes(u64::MAX),
{
    vstd::bytes::lemma_auto_spec_u64_to_from_le_bytes();
}

} // verus!

//! The shared state of a ring, apart from its bytes.

use crate::ring::slots::{holds, without};
use crate::ring::{ABI_VERSION, MAX_READERS};
use vstd::prelude::*;

verus! {

/// The fields of the shared header.
#[derive(Clone, Copy, Debug)]
pub struct Header {
    /// The layout's version, or zero while the header is being initialized.
    pub version: u64,
    /// The length of the payload.
    pub capacity: u64,
    /// The position after the last published byte.
    pub write_position: u64,
    /// The readers that wait for data.
    pub data_waiters: u64,
    /// The readers that the producer waits for.
    pub space_waiters: u64,
    /// The position of the next byte of each reader.
    pub read_positions: [u64; 64],
}

impl Header {
    /// A header of a ring without traffic, not yet published.
    pub fn new(capacity: usize) -> (header: Self)
        ensures
            header.version == 0,
            header.capacity == capacity,
            header.write_position == 0,
            header.data_waiters == 0,
            header.space_waiters == 0,
            forall|slot: int| 0 <= slot < MAX_READERS ==> #[trigger] header.read_positions@[slot] == 0,
    {
        Header {
            version: 0,
            capacity: capacity as u64,
            write_position: 0,
            data_waiters: 0,
            space_waiters: 0,
            read_positions: [0;64],
        }
    }

    /// Publishes an initialized header by giving it its version.
    pub fn publish(&mut self)
        ensures
            *final(self) == (Header { version: ABI_VERSION, ..*old(self) }),
    {
        self.version = ABI_VERSION;
    }

    /// Takes a reader that is gone out of both sets of waiters.
    pub fn forget_waiter(&mut self, slot: u8)
        requires
            slot < MAX_READERS,
        ensures
            final(self).version == old(self).version,
            final(self).capacity == old(self).capacity,
            final(self).write_position == old(self).write_position,
            final(self).read_positions == old(self).read_positions,
            forall|other: int| #[trigger]
                holds(final(self).data_waiters, other) == (holds(old(self).data_waiters, other)
                    && other != slot),
            forall|other: int| #[trigger]
                holds(final(self).space_waiters, other) == (holds(old(self).space_waiters, other)
                    && other != slot),
    {
        self.data_waiters = without(self.data_waiters, slot);
        self.space_waiters = without(self.space_waiters, slot);
    }
}

} // verus!

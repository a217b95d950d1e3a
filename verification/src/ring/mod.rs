//! The rules of the ring: positions, extents, readers and their laws.

use vstd::prelude::*;

pub mod consumer;
pub mod header;
pub mod laws;
pub mod membership;
pub mod position;
pub mod producer;
pub mod reader;
pub mod realization;
pub mod slots;

verus! {

/// How many readers one ring serves at most.
pub const MAX_READERS: usize = 64;

/// The version of the shared header's layout.
pub const ABI_VERSION: u64 = 1;

} // verus!

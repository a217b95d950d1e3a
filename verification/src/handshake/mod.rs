//! The control protocol by which a client attaches to a ring.

use std::time::Duration;
use vstd::prelude::*;

pub mod client;
pub mod laws;
pub mod protocol;
pub mod server;

verus! {

/// A whole number of seconds, as `Duration::from_secs` returns it.
pub uninterp spec fn whole_seconds(seconds: u64) -> Duration;

/// `Duration::from_secs`: the duration of `seconds` whole seconds, which depends on the
/// argument alone.
pub assume_specification[ Duration::from_secs ](seconds: u64) -> (duration: Duration)
    ensures
        duration == whole_seconds(seconds),
;

/// Returns how long a complete handshake may take by default.
pub fn default_timeout() -> (timeout: Duration)
    ensures
        timeout == whole_seconds(1),
{
    Duration::from_secs(1)
}

} // verus!

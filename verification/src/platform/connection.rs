//! How a named ring is found, and how long its initialization is waited for.

use crate::error::{initialization_timed_out, invalid_name, joined, Error, ErrorKind};
use vstd::prelude::*;
use vstd::utf8::encode_utf8;

verus! {

/// How many bytes a logical name has at most.
pub const MAX_LOGICAL_NAME_LEN: usize = 20;

/// How long an initialization is waited for, in nanoseconds.
pub const INITIALIZATION_TIMEOUT: u128 = 100_000_000;

/// How long is waited between two looks at an initialization, in nanoseconds.
pub const INITIALIZATION_POLL_INTERVAL: u128 = 1_000_000;

/// Whether a byte may stand in a logical name.
pub open spec fn name_byte(byte: u8) -> bool {
    ||| 0x30 <= byte <= 0x39
    ||| 0x41 <= byte <= 0x5a
    ||| 0x61 <= byte <= 0x7a
    ||| byte == 0x2d
    ||| byte == 0x5f
    ||| byte == 0x2e
}

/// Whether a name is a valid logical one: short, not empty, and made of letters, digits,
/// hyphens, underscores and dots.
pub open spec fn valid_name(name: Seq<char>) -> bool {
    let bytes = encode_utf8(name);
    &&& name.len() > 0
    &&& bytes.len() <= MAX_LOGICAL_NAME_LEN
    &&& forall|i: int| 0 <= i < bytes.len() ==> name_byte(#[trigger] bytes[i])
}

/// Checks a logical name.
pub fn validate_name(name: &str) -> (outcome: Result<(), Error>)
    ensures
        outcome == (if valid_name(name@) {
            Ok(())
        } else {
            Err(Error::InvalidName)
        }),
{
    let bytes = name.as_bytes();
    if name.is_empty() || bytes.len() > MAX_LOGICAL_NAME_LEN {
        return Err(invalid_name());
    }
    let mut index: usize = 0;
    while index < bytes.len()
        invariant
            index <= bytes@.len(),
            bytes@ == encode_utf8(name@),
            forall|i: int| 0 <= i < index ==> name_byte(#[trigger] bytes@[i]),
        decreases bytes@.len() - index,
    {
        let byte: u8 = bytes[index];
        let accepted = (0x30 <= byte && byte <= 0x39) || (0x41 <= byte && byte <= 0x5a) || (0x61
            <= byte && byte <= 0x7a) || byte == 0x2d || byte == 0x5f || byte == 0x2e;
        if !accepted {
            assert(!name_byte(bytes@[index as int]));
            return Err(invalid_name());
        }
        index = index + 1;
    }
    Ok(())
}

/// A valid name never ends a system name early, as it holds no zero byte.
pub proof fn law_names_hold_no_zero(name: Seq<char>)
    requires
        valid_name(name),
    ensures
        forall|i: int| 0 <= i < encode_utf8(name).len() ==> #[trigger] encode_utf8(name)[i] != 0,
{
}

/// Returns the system name of the shared-memory object of a ring.
pub fn os_name(name: &str) -> (os_name: String)
    ensures
        os_name@ == "/ipc-ring-"@ + name@,
{
    joined("/ipc-ring-", name)
}

/// Returns the system name of one component of a ring.
pub fn object_name(name: &str, component: &str) -> (object_name: String)
    ensures
        object_name@ == "Local\\ipc-ring-"@ + name@ + "-"@ + component@,
{
    let mut object_name = joined("Local\\ipc-ring-", name);
    object_name.append("-");
    object_name.append(component);
    object_name
}

/// Decides what creating a new system object means where the system tells whether one of
/// that name existed already.
pub fn validate_created(existed: bool) -> (outcome: Result<(), Error>)
    ensures
        outcome == (if existed {
            Err(Error::Bare(ErrorKind::AlreadyExists))
        } else {
            Ok(())
        }),
{
    if existed {
        Err(Error::Bare(ErrorKind::AlreadyExists))
    } else {
        Ok(())
    }
}

/// Returns the halves of an object's length, the high one first.
pub fn length_halves(len: u64) -> (halves: (u32, u32))
    ensures
        halves.0 * 0x1_0000_0000 + halves.1 == len,
{
    let high: u32 = (len >> 32) as u32;
    let low: u32 = (len & 0xffff_ffff) as u32;
    assert(((len >> 32) as u32) * 0x1_0000_0000 + ((len & 0xffff_ffff) as u32) == len)
        by (bit_vector);
    (high, low)
}

/// When an initialization has been waited for long enough, in nanoseconds of a steady clock.
#[derive(Clone, Copy, Debug, PartialEq, Eq, Structural)]
pub struct InitializationDeadline {
    pub deadline: u128,
}

/// How long to wait until the next look, or that the deadline has passed.
pub open spec fn wait_outcome(deadline: u128, now: u128) -> Result<u128, Error> {
    if now >= deadline {
        Err(Error::InitializationTimedOut)
    } else if deadline - now < INITIALIZATION_POLL_INTERVAL {
        Ok((deadline - now) as u128)
    } else {
        Ok(INITIALIZATION_POLL_INTERVAL)
    }
}

impl InitializationDeadline {
    /// Starts to wait at the time `now`.
    pub fn start(now: u128) -> (deadline: Self)
        requires
            now + INITIALIZATION_TIMEOUT <= u128::MAX,
        ensures
            deadline.deadline == now + INITIALIZATION_TIMEOUT,
    {
        InitializationDeadline { deadline: now + INITIALIZATION_TIMEOUT }
    }

    /// Returns how long to sleep before the next look at the time `now`.
    pub fn wait(self, now: u128) -> (pause: Result<u128, Error>)
        ensures
            pause == wait_outcome(self.deadline, now),
    {
        if now >= self.deadline {
            return Err(initialization_timed_out());
        }
        let remaining: u128 = self.deadline - now;
        if remaining < INITIALIZATION_POLL_INTERVAL {
            Ok(remaining)
        } else {
            Ok(INITIALIZATION_POLL_INTERVAL)
        }
    }
}

/// No pause lasts past the deadline, and every pause makes progress towards it.
pub proof fn law_waiting_ends(deadline: u128, now: u128)
    ensures
        wait_outcome(deadline, now) matches Ok(pause) ==> 0 < pause && now + pause <= deadline,
        wait_outcome(deadline, now) is Err <==> now >= deadline,
{
}

/// What follows one look at something that is being initialized.
#[derive(Debug)]
pub enum Retry<T> {
    /// The wait is over, with this result.
    Return(Result<T, Error>),
    /// Sleep this many nanoseconds, then look again.
    Sleep(u128),
}

/// What follows an attempt at the time `now`: only a missing object is waited for.
pub open spec fn retry_outcome<T>(deadline: u128, now: u128, attempt: Result<T, Error>) -> Retry<T> {
    match attempt {
        Ok(value) => Retry::Return(Ok(value)),
        Err(error) => if error.spec_kind() == ErrorKind::NotFound {
            match wait_outcome(deadline, now) {
                Ok(pause) => Retry::Sleep(pause),
                Err(late) => Retry::Return(Err(late)),
            }
        } else {
            Retry::Return(Err(error))
        },
    }
}

/// Decides what follows an attempt at the time `now` to open a component of a ring that is
/// being initialized.
pub fn retry_initialization_not_found<T>(
    deadline: InitializationDeadline,
    now: u128,
    attempt: Result<T, Error>,
) -> (retry: Retry<T>)
    ensures
        retry == retry_outcome(deadline.deadline, now, attempt),
{
    match attempt {
        Ok(value) => Retry::Return(Ok(value)),
        Err(error) => if error.kind() == ErrorKind::NotFound {
            match deadline.wait(now) {
                Ok(pause) => Retry::Sleep(pause),
                Err(late) => Retry::Return(Err(late)),
            }
        } else {
            Retry::Return(Err(error))
        },
    }
}

} // verus!

//! The word by which one side of a ring waits for the other.

use vstd::prelude::*;

verus! {

/// Nobody waits.
pub const IDLE: u64 = 0;

/// Somebody waits.
pub const WAITING: u64 = 1;

/// The shared word of one direction.
#[derive(Clone, Copy, Debug, PartialEq, Eq, Structural)]
pub struct WaitState {
    pub word: u64,
}

impl WaitState {
    /// Registers a waiter.
    pub fn register(&mut self)
        ensures
            final(self).word == WAITING,
    {
        self.word = WAITING;
    }

    /// Takes the registration back.
    pub fn clear(&mut self)
        ensures
            final(self).word == IDLE,
    {
        self.word = IDLE;
    }

    /// Ends the wait, and returns whether a waiter must be woken.
    pub fn notify(&mut self) -> (wake: bool)
        ensures
            final(self).word == IDLE,
            wake == (old(self).word == WAITING),
    {
        let wake = self.word == WAITING;
        self.word = IDLE;
        wake
    }
}

/// Why a wait on the word or a wakeup through it returned early.
#[derive(Clone, Copy, Debug, PartialEq, Eq, Structural)]
pub enum WakeFault {
    /// The word had changed already.
    Changed,
    /// A signal came in between.
    Interrupted,
    /// The word could not be read at that moment.
    Fault,
    /// Nobody waited.
    NoWaiter,
    /// Anything else, with the system's code.
    Other(i32),
}

/// Decides what the end of a wait means on Linux: a word that had changed and a signal are
/// no failures, since the caller looks again.
pub fn futex_wait(end: Result<(), WakeFault>) -> (outcome: Result<(), WakeFault>)
    ensures
        outcome == (match end {
            Err(WakeFault::Changed) => Ok(()),
            Err(WakeFault::Interrupted) => Ok(()),
            other => other,
        }),
{
    match end {
        Err(WakeFault::Changed) => Ok(()),
        Err(WakeFault::Interrupted) => Ok(()),
        other => other,
    }
}

/// Decides what the end of a wait means on macOS, where `result` is negative on failure: a
/// signal and an unreadable word are no failures.
pub fn os_wait(result: i32, fault: WakeFault) -> (outcome: Result<(), WakeFault>)
    ensures
        outcome == (if result >= 0 || fault == WakeFault::Interrupted || fault
            == WakeFault::Fault {
            Ok(())
        } else {
            Err(fault)
        }),
{
    if result >= 0 {
        return Ok(());
    }
    match fault {
        WakeFault::Interrupted => Ok(()),
        WakeFault::Fault => Ok(()),
        other => Err(other),
    }
}

/// Decides what a wakeup means on macOS, where `result` is negative on failure: that nobody
/// waited is no failure.
pub fn os_wake(result: i32, fault: WakeFault) -> (outcome: Result<(), WakeFault>)
    ensures
        outcome == (if result >= 0 || fault == WakeFault::NoWaiter {
            Ok(())
        } else {
            Err(fault)
        }),
{
    if result >= 0 {
        return Ok(());
    }
    match fault {
        WakeFault::NoWaiter => Ok(()),
        other => Err(other),
    }
}

} // verus!

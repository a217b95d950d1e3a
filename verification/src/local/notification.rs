//! Wakes the two endpoints of a local ring without an IPC stream.

use crate::error::{peer_disconnected, Error};
use std::sync::atomic::{AtomicBool, Ordering};
use std::sync::Arc;
use tokio::sync::Notify;
use vstd::prelude::*;

verus! {

/// `tokio::sync::Notify`: a source of wakeups. It is carried and signalled, and nothing is
/// claimed of its inside.
#[verifier::external_type_specification]
#[verifier::external_body]
pub struct ExNotify(tokio::sync::Notify);

/// `Notify::new`: creates a source without a stored wakeup. Nothing is claimed of it.
pub assume_specification[ tokio::sync::Notify::new ]() -> tokio::sync::Notify
;

/// `Notify::notify_one`: wakes one waiting task, or stores one wakeup for the next. It
/// returns nothing, and which task runs is the runtime's choice, so nothing is claimed.
pub assume_specification[ tokio::sync::Notify::notify_one ](notify: &tokio::sync::Notify)
;

/// `Notify::notify_waiters`: wakes every task that waits at the moment. It returns nothing,
/// so nothing is claimed.
pub assume_specification[ tokio::sync::Notify::notify_waiters ](notify: &tokio::sync::Notify)
;

/// What an endpoint of a channel is told: a closed channel has lost its peer.
pub open spec fn channel_outcome(closed: bool) -> Result<(), Error> {
    if closed {
        Err(Error::PeerDisconnected)
    } else {
        Ok(())
    }
}

/// Decides what an endpoint of a channel is told.
pub fn validate_channel(closed: bool) -> (outcome: Result<(), Error>)
    ensures
        outcome == channel_outcome(closed),
{
    if closed {
        Err(peer_disconnected())
    } else {
        Ok(())
    }
}

/// Shared wakeups and closure state for a local ring.
pub struct LocalNotifications {
    data_available: Notify,
    space_available: Notify,
    closed: AtomicBool,
}

impl LocalNotifications {
    /// What wakes the consumer.
    pub closed spec fn data(&self) -> Notify {
        self.data_available
    }

    /// What wakes the producer.
    pub closed spec fn space(&self) -> Notify {
        self.space_available
    }

    /// The flag that tells whether the channel is closed.
    pub closed spec fn flag(&self) -> AtomicBool {
        self.closed
    }

    /// Returns an open channel: both sources of wakeups are new, and the flag is made with
    /// `false`.
    pub fn new() -> (channel: Self)
        ensures
            call_ensures(Notify::new, (), channel.data()),
            call_ensures(Notify::new, (), channel.space()),
            call_ensures(AtomicBool::new, (false,), channel.flag()),
    {
        LocalNotifications {
            data_available: Notify::new(),
            space_available: Notify::new(),
            closed: AtomicBool::new(false),
        }
    }

    /// Closes the channel, and wakes everyone who waits on it if it was open.
    pub fn close(&self)
        ensures
            exists|was: bool| #[trigger]
                call_ensures(AtomicBool::swap, (&self.flag(), true, Ordering::AcqRel), was) && (!was
                    ==> call_ensures(Notify::notify_waiters, (&self.data(),), ())
                    && call_ensures(Notify::notify_waiters, (&self.space(),), ())),
    {
        if !self.closed.swap(true, Ordering::AcqRel) {
            self.data_available.notify_waiters();
            self.space_available.notify_waiters();
        }
    }

    /// Checks that the channel is open, as a wait does before and after it waits.
    pub fn validate_open(&self) -> (outcome: Result<(), Error>)
        ensures
            exists|closed: bool|
                call_ensures(AtomicBool::load, (&self.flag(), Ordering::Acquire), closed) && outcome
                    == #[trigger] channel_outcome(closed),
    {
        let closed = self.closed.load(Ordering::Acquire);
        let outcome = validate_channel(closed);
        assert(outcome == channel_outcome(closed));
        outcome
    }

    /// Wakes the consumer, unless the channel is closed.
    pub fn notify_data(&self) -> (outcome: Result<(), Error>)
        ensures
            exists|closed: bool|
                call_ensures(AtomicBool::load, (&self.flag(), Ordering::Acquire), closed) && outcome
                    == #[trigger] channel_outcome(closed),
            outcome is Ok ==> call_ensures(Notify::notify_one, (&self.data(),), ()),
    {
        let outcome = self.validate_open();
        if outcome.is_ok() {
            self.data_available.notify_one();
        }
        outcome
    }

    /// Wakes the producer, unless the channel is closed.
    pub fn notify_space(&self) -> (outcome: Result<(), Error>)
        ensures
            exists|closed: bool|
                call_ensures(AtomicBool::load, (&self.flag(), Ordering::Acquire), closed) && outcome
                    == #[trigger] channel_outcome(closed),
            outcome is Ok ==> call_ensures(Notify::notify_one, (&self.space(),), ()),
    {
        let outcome = self.validate_open();
        if outcome.is_ok() {
            self.space_available.notify_one();
        }
        outcome
    }

    /// Returns what wakes the consumer.
    pub fn data_available(&self) -> (notify: &Notify)
        ensures
            *notify == self.data(),
    {
        &self.data_available
    }

    /// Returns what wakes the producer.
    pub fn space_available(&self) -> (notify: &Notify)
        ensures
            *notify == self.space(),
    {
        &self.space_available
    }
}

/// Creates the channel that both endpoints of one local reader share.
pub fn pair() -> (channel: (Arc<LocalNotifications>, Arc<LocalNotifications>))
    ensures
        channel.0 == channel.1,
        call_ensures(LocalNotifications::new, (), *channel.0),
{
    let notifications = Arc::new(LocalNotifications::new());
    (Arc::clone(&notifications), notifications)
}

/// An endpoint is told that its peer is gone exactly where the channel is closed.
pub proof fn law_closed_channels_lost_their_peer(closed: bool)
    ensures
        channel_outcome(closed) is Ok <==> !closed,
        closed ==> channel_outcome(closed) == Err::<(), Error>(Error::PeerDisconnected),
{
}

} // verus!

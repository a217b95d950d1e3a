//! How a server runs: its options, and how many handshakes it carries on at once.

use crate::error::Error;
use crate::handshake::{default_timeout, whole_seconds};
use std::time::Duration;
use vstd::prelude::*;

verus! {

/// How many handshakes a server carries on at once.
pub const MAX_CONCURRENT_HANDSHAKES: usize = 64;

/// Options for running an IPC server.
#[derive(Clone, Copy, Debug)]
pub struct ServerOptions {
    pub handshake_timeout: Duration,
}

impl ServerOptions {
    /// Creates server options with default settings.
    pub fn new() -> (options: Self)
        ensures
            options.handshake_timeout == whole_seconds(1),
    {
        ServerOptions { handshake_timeout: default_timeout() }
    }

    /// Sets how long a reader may take to connect.
    pub fn handshake_timeout(self, timeout: Duration) -> (options: Self)
        ensures
            options == (ServerOptions { handshake_timeout: timeout, ..self }),
    {
        ServerOptions { handshake_timeout: timeout, ..self }
    }
}

impl Default for ServerOptions {
    fn default() -> (options: Self)
        ensures
            options.handshake_timeout == whole_seconds(1),
    {
        ServerOptions::new()
    }
}

/// What the listener waits for.
#[derive(Clone, Copy, Debug, PartialEq, Eq, Structural)]
pub enum Await {
    /// A handshake that ends.
    Finished,
    /// A client that connects.
    Client,
    /// Either, whichever comes first.
    ClientOrFinished,
}

/// What happened while the listener waited.
#[derive(Clone, Copy, Debug, PartialEq, Eq)]
pub enum ListenerEvent {
    /// A client connected.
    Accepted,
    /// No client can be accepted any more, for this reason.
    AcceptFailed(Error),
    /// A handshake ended, and so.
    Finished(Result<(), Error>),
}

/// What the listener does about what happened.
#[derive(Clone, Copy, Debug, PartialEq, Eq)]
pub enum ListenerStep {
    /// Begin a handshake with the client, which may take so long.
    Begin(Duration),
    /// Go on.
    Continue,
    /// End, with this error.
    End(Error),
}

/// The handshakes that a listener carries on.
#[derive(Clone, Copy, Debug)]
pub struct Listener {
    incomplete: usize,
    handshake_timeout: Duration,
}

/// What is known of a listener.
#[verifier::ext_equal]
pub struct ListenerProgress {
    /// How many handshakes are going on.
    pub incomplete: int,
    /// How long each of them may take.
    pub handshake_timeout: Duration,
}

impl ListenerProgress {
    /// A listener without handshakes.
    pub open spec fn start(options: ServerOptions) -> ListenerProgress {
        ListenerProgress { incomplete: 0, handshake_timeout: options.handshake_timeout }
    }

    /// At most the permitted number of handshakes is going on.
    pub open spec fn wf(&self) -> bool {
        0 <= self.incomplete <= MAX_CONCURRENT_HANDSHAKES
    }

    /// What the listener waits for: no client is accepted while the permitted number of
    /// handshakes is going on, and an end is only waited for while there is one to come.
    pub open spec fn spec_next(&self) -> Await {
        if self.incomplete >= MAX_CONCURRENT_HANDSHAKES {
            Await::Finished
        } else if self.incomplete == 0 {
            Await::Client
        } else {
            Await::ClientOrFinished
        }
    }

    /// Whether `event` is one that the listener waits for.
    pub open spec fn awaits(&self, event: ListenerEvent) -> bool {
        match event {
            ListenerEvent::Accepted => self.spec_next() != Await::Finished,
            ListenerEvent::AcceptFailed(_) => self.spec_next() != Await::Finished,
            ListenerEvent::Finished(_) => self.spec_next() != Await::Client,
        }
    }

    /// The listener after `event`.
    pub open spec fn after(&self, event: ListenerEvent) -> ListenerProgress {
        match event {
            ListenerEvent::Accepted => ListenerProgress {
                incomplete: self.incomplete + 1,
                ..*self
            },
            ListenerEvent::AcceptFailed(_) => *self,
            ListenerEvent::Finished(_) => ListenerProgress {
                incomplete: self.incomplete - 1,
                ..*self
            },
        }
    }

    /// What the listener does about `event`: every client gets a handshake, only a failed
    /// accept ends the listener, and how a handshake ended makes no difference.
    pub open spec fn step(&self, event: ListenerEvent) -> ListenerStep {
        match event {
            ListenerEvent::Accepted => ListenerStep::Begin(self.handshake_timeout),
            ListenerEvent::AcceptFailed(error) => ListenerStep::End(error),
            ListenerEvent::Finished(_) => ListenerStep::Continue,
        }
    }

    /// The listener after all of `events`.
    pub open spec fn after_all(&self, events: Seq<ListenerEvent>) -> ListenerProgress
        decreases events.len(),
    {
        if events.len() == 0 {
            *self
        } else {
            self.after_all(events.drop_last()).after(events.last())
        }
    }

    /// Whether `events` can happen to the listener one after the other: it waits for each
    /// of them when it happens, and none happens after the listener ended.
    pub open spec fn can_happen(&self, events: Seq<ListenerEvent>) -> bool {
        forall|i: int|
            0 <= i < events.len() ==> {
                &&& self.after_all(#[trigger] events.take(i)).awaits(events[i])
                &&& i + 1 < events.len() ==> self.after_all(events.take(i)).step(events[i]) !is End
            }
    }
}

/// How many of `events` are clients that connected.
pub open spec fn clients(events: Seq<ListenerEvent>) -> int
    decreases events.len(),
{
    if events.len() == 0 {
        0
    } else {
        clients(events.drop_last()) + if events.last() is Accepted {
            1int
        } else {
            0
        }
    }
}

/// How many of `events` are handshakes that ended.
pub open spec fn endings(events: Seq<ListenerEvent>) -> int
    decreases events.len(),
{
    if events.len() == 0 {
        0
    } else {
        endings(events.drop_last()) + if events.last() is Finished {
            1int
        } else {
            0
        }
    }
}

impl Listener {
    /// What is known of this listener.
    pub closed spec fn progress(&self) -> ListenerProgress {
        ListenerProgress {
            incomplete: self.incomplete as int,
            handshake_timeout: self.handshake_timeout,
        }
    }

    /// Returns a listener without handshakes.
    pub fn new(options: ServerOptions) -> (listener: Self)
        ensures
            listener.progress() == ListenerProgress::start(options),
            listener.progress().wf(),
    {
        Listener { incomplete: 0, handshake_timeout: options.handshake_timeout }
    }

    /// Returns what the listener waits for.
    pub fn next(&self) -> (next: Await)
        ensures
            next == self.progress().spec_next(),
    {
        if self.incomplete >= MAX_CONCURRENT_HANDSHAKES {
            Await::Finished
        } else if self.incomplete == 0 {
            Await::Client
        } else {
            Await::ClientOrFinished
        }
    }

    /// Takes note of what happened, and returns what the listener does about it.
    pub fn record(&mut self, event: ListenerEvent) -> (step: ListenerStep)
        requires
            old(self).progress().wf(),
            old(self).progress().awaits(event),
        ensures
            final(self).progress() == old(self).progress().after(event),
            final(self).progress().wf(),
            step == old(self).progress().step(event),
    {
        match event {
            ListenerEvent::Accepted => {
                self.incomplete = self.incomplete + 1;
                ListenerStep::Begin(self.handshake_timeout)
            },
            ListenerEvent::AcceptFailed(error) => ListenerStep::End(error),
            ListenerEvent::Finished(_) => {
                self.incomplete = self.incomplete - 1;
                ListenerStep::Continue
            },
        }
    }
}

/// Whatever happens to a listener, at no time are more than the permitted number of
/// handshakes going on, which are the ones that were begun and have not ended, and each may
/// take as long as the options say.
pub proof fn law_handshakes_are_bounded(options: ServerOptions, events: Seq<ListenerEvent>)
    requires
        ListenerProgress::start(options).can_happen(events),
    ensures
        ({
            let listener = ListenerProgress::start(options).after_all(events);
            &&& listener.wf()
            &&& listener.incomplete == clients(events) - endings(events)
            &&& listener.handshake_timeout == options.handshake_timeout
        }),
    decreases events.len(),
{
    if events.len() > 0 {
        let start = ListenerProgress::start(options);
        let before = events.drop_last();
        assert(events.take(events.len() - 1) =~= before);
        assert forall|i: int| 0 <= i < before.len() implies {
            &&& start.after_all(#[trigger] before.take(i)).awaits(before[i])
            &&& i + 1 < before.len() ==> start.after_all(before.take(i)).step(before[i]) !is End
        } by {
            assert(before.take(i) =~= events.take(i));
        }
        law_handshakes_are_bounded(options, before);
        assert(start.after_all(before).awaits(events[events.len() - 1]));
    }
}

/// A listener ends only by an error: that of the first accept that fails, and then at once.
/// Every client that connected before that got a handshake of its own with the timeout of the
/// options. No handshake ends the listener or is reported by it, however the handshake ended.
pub proof fn law_listeners_end_by_a_failed_accept(
    options: ServerOptions,
    events: Seq<ListenerEvent>,
    i: int,
)
    requires
        ListenerProgress::start(options).can_happen(events),
        0 <= i < events.len(),
    ensures
        ({
            let listener = ListenerProgress::start(options).after_all(events.take(i));
            match events[i] {
                ListenerEvent::Accepted => listener.step(events[i]) == ListenerStep::Begin(
                    options.handshake_timeout,
                ),
                ListenerEvent::Finished(_) => listener.step(events[i]) == ListenerStep::Continue,
                ListenerEvent::AcceptFailed(error) => {
                    &&& listener.step(events[i]) == ListenerStep::End(error)
                    &&& i == events.len() - 1
                    &&& forall|j: int| 0 <= j < i ==> !(#[trigger] events[j] is AcceptFailed)
                },
            }
        }),
{
    let start = ListenerProgress::start(options);
    let before = events.take(i);
    assert forall|j: int| 0 <= j < before.len() implies {
        &&& start.after_all(#[trigger] before.take(j)).awaits(before[j])
        &&& j + 1 < before.len() ==> start.after_all(before.take(j)).step(before[j]) !is End
    } by {
        assert(before.take(j) =~= events.take(j));
    }
    law_handshakes_are_bounded(options, before);
    assert(start.after_all(events.take(i)).awaits(events[i]));
    assert forall|j: int| 0 <= j < i implies !(#[trigger] events[j] is AcceptFailed) by {
        assert(start.after_all(events.take(j)).step(events[j]) !is End);
    }
}

/// A listener has room for sixty-four handshakes: it waits for another client exactly while fewer
/// are going on, and for one that ends exactly while there is one. A client adds one, an end takes
/// one away, and nothing else changes how many there are.
pub proof fn law_clients_are_accepted_while_there_is_room(
    listener: ListenerProgress,
    outcome: Result<(), Error>,
    error: Error,
)
    requires
        0 <= listener.incomplete <= 64,
    ensures
        listener.wf(),
        listener.awaits(ListenerEvent::Accepted) <==> listener.incomplete < 64,
        listener.awaits(ListenerEvent::AcceptFailed(error)) <==> listener.incomplete < 64,
        listener.awaits(ListenerEvent::Finished(outcome)) <==> 0 < listener.incomplete,
        listener.spec_next() == Await::Finished <==> listener.incomplete == 64,
        listener.spec_next() == Await::Client <==> listener.incomplete == 0,
        listener.after(ListenerEvent::Accepted).incomplete == listener.incomplete + 1,
        listener.after(ListenerEvent::Finished(outcome)).incomplete == listener.incomplete - 1,
        listener.after(ListenerEvent::AcceptFailed(error)) == listener,
        listener.after(ListenerEvent::Accepted).after(ListenerEvent::Finished(outcome)) == listener,
{
    assert(listener.after(ListenerEvent::Accepted).after(ListenerEvent::Finished(outcome))
        =~= listener);
}

} // verus!

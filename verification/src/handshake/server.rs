//! The server's side of the attachment handshake, step by step.

use crate::error::Error;
use crate::handshake::protocol::{
    encode_status, receive_ready, receive_request, request_answer, status_bytes, Rejection,
    RequestAnswer, RequestStep, Status, ATTACHED, READY,
};
use vstd::pervasive::unreached;
use vstd::prelude::*;

verus! {

/// How far a server is with one client.
#[derive(Clone, Copy, Debug, PartialEq, Eq)]
pub enum ServerStage {
    /// The request is being read.
    Request,
    /// The client is to be routed to the ring of its port.
    Routing,
    /// The client is to be told why it is refused.
    Refusing(Rejection),
    /// The handshake failed.
    Refused(Rejection),
    /// The client is to be told the slot that it was given.
    Accepting,
    /// The mapping is to be sent.
    Mapping,
    /// The client's confirmation is to be read.
    Confirmation,
    /// The reader is to be activated.
    Activating,
    /// The attachment is to be acknowledged.
    Acknowledging,
    /// The reader is attached.
    Attached,
}

/// A server in the middle of a handshake.
#[derive(Debug)]
pub struct ServerHandshake {
    stage: ServerStage,
    received: Vec<u8>,
    slot: u8,
}

/// What is known of a server in the middle of a handshake.
#[verifier::ext_equal]
pub struct ServerProgress {
    pub stage: ServerStage,
    /// What it has read of the request.
    pub received: Seq<u8>,
    /// The slot that it reserved for the client, once it has.
    pub slot: u8,
}

/// What a server does next.
#[derive(Debug)]
pub enum ServerAction {
    /// Read exactly this many bytes.
    Read(usize),
    /// Reserve a slot of the ring of this port.
    Route(String),
    /// Send these bytes.
    Send(Vec<u8>),
    /// Send the mapping of the ring.
    SendMapping,
    /// Attach the reader where the producer is now.
    Activate,
    /// Keep the reader: the handshake is complete.
    Finish,
    /// Give up: the handshake failed so.
    Fail(Error),
}

/// What a server is asked to do.
pub enum ServerTask {
    Read(int),
    Route(Seq<char>),
    Send(Seq<u8>),
    SendMapping,
    Activate,
    Finish,
    Fail(Error),
}

impl View for ServerAction {
    type V = ServerTask;

    open spec fn view(&self) -> ServerTask {
        match self {
            ServerAction::Read(count) => ServerTask::Read(*count as int),
            ServerAction::Route(port) => ServerTask::Route(port@),
            ServerAction::Send(bytes) => ServerTask::Send(bytes@),
            ServerAction::SendMapping => ServerTask::SendMapping,
            ServerAction::Activate => ServerTask::Activate,
            ServerAction::Finish => ServerTask::Finish,
            ServerAction::Fail(error) => ServerTask::Fail(*error),
        }
    }
}

impl ServerProgress {
    /// A server that has read nothing yet.
    pub open spec fn start() -> ServerProgress {
        ServerProgress { stage: ServerStage::Request, received: Seq::empty(), slot: 0 }
    }

    /// The request is read while it is incomplete, and the client is routed by a complete one.
    pub open spec fn wf(&self) -> bool {
        &&& self.stage == ServerStage::Request ==> request_answer(self.received) is Read
        &&& self.stage == ServerStage::Routing ==> request_answer(self.received) is Port
    }

    /// What the server does next.
    pub open spec fn task(&self) -> ServerTask {
        match self.stage {
            ServerStage::Request => ServerTask::Read(request_answer(self.received)->Read_0),
            ServerStage::Routing => ServerTask::Route(request_answer(self.received)->Port_0),
            ServerStage::Refusing(rejection) => ServerTask::Send(
                status_bytes(rejection.status, None),
            ),
            ServerStage::Refused(rejection) => ServerTask::Fail(rejection.error),
            ServerStage::Accepting => ServerTask::Send(
                status_bytes(Status::Accepted, Some(self.slot)),
            ),
            ServerStage::Mapping => ServerTask::SendMapping,
            ServerStage::Confirmation => ServerTask::Read(8),
            ServerStage::Activating => ServerTask::Activate,
            ServerStage::Acknowledging => ServerTask::Send(ATTACHED@),
            ServerStage::Attached => ServerTask::Finish,
        }
    }

    /// The server after it did what it was asked to, where that is neither to read nor to
    /// route.
    pub open spec fn after_doing(&self) -> ServerProgress {
        let stage = match self.stage {
            ServerStage::Refusing(rejection) => ServerStage::Refused(rejection),
            ServerStage::Accepting => ServerStage::Mapping,
            ServerStage::Mapping => ServerStage::Confirmation,
            ServerStage::Activating => ServerStage::Acknowledging,
            ServerStage::Acknowledging => ServerStage::Attached,
            other => other,
        };
        ServerProgress { stage, ..*self }
    }

    /// The server after it routed the client, with the slot that it reserved or why it did
    /// not.
    pub open spec fn after_routing(&self, admission: Result<u8, Rejection>) -> ServerProgress {
        match admission {
            Ok(slot) => ServerProgress { stage: ServerStage::Accepting, slot, ..*self },
            Err(rejection) => ServerProgress {
                stage: ServerStage::Refusing(rejection),
                ..*self
            },
        }
    }

    /// The server after it read `bytes`, or why the handshake fails then. A request that is
    /// refused is answered first.
    pub open spec fn after_reading(&self, bytes: Seq<u8>) -> Result<ServerProgress, Error> {
        if self.stage == ServerStage::Request {
            let received = self.received + bytes;
            let stage = match request_answer(received) {
                RequestAnswer::Read(_) => ServerStage::Request,
                RequestAnswer::Port(_) => ServerStage::Routing,
                RequestAnswer::Reject(status, error) => ServerStage::Refusing(
                    Rejection { status, error },
                ),
            };
            Ok(ServerProgress { stage, received, ..*self })
        } else if bytes == READY@ {
            Ok(ServerProgress { stage: ServerStage::Activating, ..*self })
        } else {
            Err(Error::Protocol("client did not confirm mapping attachment"))
        }
    }
}

impl ServerHandshake {
    /// What is known of this server.
    pub closed spec fn progress(&self) -> ServerProgress {
        ServerProgress { stage: self.stage, received: self.received@, slot: self.slot }
    }

    /// Begins to serve a client.
    pub fn new() -> (server: Self)
        ensures
            server.progress() == ServerProgress::start(),
            server.progress().wf(),
    {
        let server = ServerHandshake {
            stage: ServerStage::Request,
            received: Vec::new(),
            slot: 0,
        };
        assert(server.progress() =~= ServerProgress::start());
        server
    }

    /// Returns what the server does next.
    pub fn next(&self) -> (action: ServerAction)
        requires
            self.progress().wf(),
        ensures
            action@ == self.progress().task(),
    {
        match self.stage {
            ServerStage::Request => match receive_request(self.received.as_slice()) {
                Ok(RequestStep::Read(missing)) => ServerAction::Read(missing),
                _ => unreached(),
            },
            ServerStage::Routing => match receive_request(self.received.as_slice()) {
                Ok(RequestStep::Port(port)) => ServerAction::Route(port),
                _ => unreached(),
            },
            ServerStage::Refusing(rejection) => ServerAction::Send(
                encode_status(rejection.status, None),
            ),
            ServerStage::Refused(rejection) => ServerAction::Fail(rejection.error),
            ServerStage::Accepting => ServerAction::Send(
                encode_status(Status::Accepted, Some(self.slot)),
            ),
            ServerStage::Mapping => ServerAction::SendMapping,
            ServerStage::Confirmation => ServerAction::Read(8),
            ServerStage::Activating => ServerAction::Activate,
            ServerStage::Acknowledging => {
                let mut bytes: Vec<u8> = Vec::new();
                bytes.extend_from_slice(&ATTACHED);
                assert(bytes@ =~= ATTACHED@);
                ServerAction::Send(bytes)
            },
            ServerStage::Attached => ServerAction::Finish,
        }
    }

    /// Takes note that the server did what it was asked to, where that was neither to read nor
    /// to route.
    pub fn done(&mut self)
        requires
            old(self).progress().wf(),
            old(self).progress().task() !is Read,
            old(self).progress().task() !is Route,
        ensures
            final(self).progress() == old(self).progress().after_doing(),
            final(self).progress().wf(),
    {
        self.stage =
        match self.stage {
            ServerStage::Refusing(rejection) => ServerStage::Refused(rejection),
            ServerStage::Accepting => ServerStage::Mapping,
            ServerStage::Mapping => ServerStage::Confirmation,
            ServerStage::Activating => ServerStage::Acknowledging,
            ServerStage::Acknowledging => ServerStage::Attached,
            other => other,
        };
    }

    /// Takes note of how routing the client ended.
    pub fn routed(&mut self, admission: Result<u8, Rejection>)
        requires
            old(self).progress().wf(),
            old(self).progress().task() is Route,
        ensures
            final(self).progress() == old(self).progress().after_routing(admission),
            final(self).progress().wf(),
    {
        match admission {
            Ok(slot) => {
                self.slot = slot;
                self.stage = ServerStage::Accepting;
            },
            Err(rejection) => {
                self.stage = ServerStage::Refusing(rejection);
            },
        }
    }

    /// Takes the bytes that the server read. Where they fail the handshake, it stays where it
    /// was.
    pub fn read(&mut self, bytes: &[u8]) -> (outcome: Result<(), Error>)
        requires
            old(self).progress().wf(),
            old(self).progress().task() matches ServerTask::Read(count) && bytes@.len() == count,
        ensures
            match old(self).progress().after_reading(bytes@) {
                Ok(progress) => outcome is Ok && final(self).progress() == progress
                    && progress.wf(),
                Err(error) => outcome == Err::<(), Error>(error) && final(self).progress()
                    == old(self).progress(),
            },
    {
        match self.stage {
            ServerStage::Request => {
                self.received.extend_from_slice(bytes);
                assert(self.received@ =~= old(self).received@ + bytes@);
                match receive_request(self.received.as_slice()) {
                    Ok(RequestStep::Read(_)) => {},
                    Ok(RequestStep::Port(_)) => {
                        self.stage = ServerStage::Routing;
                    },
                    Err(rejection) => {
                        self.stage = ServerStage::Refusing(rejection);
                    },
                }
                Ok(())
            },
            _ => {
                let confirmation = [
                    bytes[0],
                    bytes[1],
                    bytes[2],
                    bytes[3],
                    bytes[4],
                    bytes[5],
                    bytes[6],
                    bytes[7],
                ];
                assert(confirmation@ =~= bytes@);
                match receive_ready(confirmation) {
                    Ok(()) => {
                        self.stage = ServerStage::Activating;
                        Ok(())
                    },
                    Err(error) => Err(error),
                }
            },
        }
    }
}

} // verus!

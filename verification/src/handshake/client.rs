//! The client's side of the attachment handshake, step by step.

use crate::error::Error;
use crate::handshake::protocol::{
    encode_request, port_fault, receive_attached, receive_status, request_bytes, status_answer,
    validate_port, StatusStep, ATTACHED, READY,
};
use vstd::pervasive::unreached;
use vstd::prelude::*;
use vstd::utf8::encode_utf8;

verus! {

/// How far a client is.
#[derive(Clone, Copy, Debug, PartialEq, Eq, Structural)]
pub enum ClientStage {
    /// The request is to be sent.
    Requesting,
    /// The server's answer is being read.
    Answer,
    /// The mapping is to be received.
    Mapping,
    /// The mapping is to be attached.
    Attaching,
    /// The attachment is to be confirmed.
    Confirming,
    /// The server's acknowledgement is to be read.
    Acknowledgement,
    /// The client is attached.
    Attached,
}

/// A client in the middle of its handshake.
#[derive(Debug)]
pub struct ClientHandshake {
    stage: ClientStage,
    port: String,
    received: Vec<u8>,
    slot: u8,
}

/// What is known of a client in the middle of its handshake.
#[verifier::ext_equal]
pub struct ClientProgress {
    pub stage: ClientStage,
    /// The port that it asks for.
    pub port: Seq<char>,
    /// What it has read of the server's answer.
    pub received: Seq<u8>,
    /// The slot that the server reserved for it, once that is known.
    pub slot: u8,
}

/// What a client does next.
#[derive(Debug)]
pub enum ClientAction {
    /// Send these bytes.
    Send(Vec<u8>),
    /// Read exactly this many bytes.
    Read(usize),
    /// Receive the mapping.
    ReceiveMapping,
    /// Validate and map the received mapping.
    Attach,
    /// The client is attached in this slot.
    Finish(u8),
}

/// What a client is asked to do.
pub enum ClientTask {
    Send(Seq<u8>),
    Read(int),
    ReceiveMapping,
    Attach,
    Finish(u8),
}

impl View for ClientAction {
    type V = ClientTask;

    open spec fn view(&self) -> ClientTask {
        match self {
            ClientAction::Send(bytes) => ClientTask::Send(bytes@),
            ClientAction::Read(count) => ClientTask::Read(*count as int),
            ClientAction::ReceiveMapping => ClientTask::ReceiveMapping,
            ClientAction::Attach => ClientTask::Attach,
            ClientAction::Finish(slot) => ClientTask::Finish(*slot),
        }
    }
}

impl ClientProgress {
    /// A client that is about to ask for `port`.
    pub open spec fn start(port: Seq<char>) -> ClientProgress {
        ClientProgress { stage: ClientStage::Requesting, port, received: Seq::empty(), slot: 0 }
    }

    /// The port is a valid one, and the answer is read from its beginning, and on while it
    /// is incomplete.
    pub open spec fn wf(&self) -> bool {
        &&& port_fault(self.port) is None
        &&& self.stage == ClientStage::Requesting ==> self.received.len() == 0
        &&& self.stage == ClientStage::Answer ==> status_answer(self.received) matches Ok(
            StatusStep::Read(_),
        )
    }

    /// What the client does next.
    pub open spec fn task(&self) -> ClientTask {
        match self.stage {
            ClientStage::Requesting => ClientTask::Send(request_bytes(self.port)),
            ClientStage::Answer => ClientTask::Read(
                status_answer(self.received)->Ok_0->Read_0 as int,
            ),
            ClientStage::Mapping => ClientTask::ReceiveMapping,
            ClientStage::Attaching => ClientTask::Attach,
            ClientStage::Confirming => ClientTask::Send(READY@),
            ClientStage::Acknowledgement => ClientTask::Read(1),
            ClientStage::Attached => ClientTask::Finish(self.slot),
        }
    }

    /// The client after it did what it was asked to, where that is not to read.
    pub open spec fn after_doing(&self) -> ClientProgress {
        let stage = match self.stage {
            ClientStage::Requesting => ClientStage::Answer,
            ClientStage::Mapping => ClientStage::Attaching,
            ClientStage::Attaching => ClientStage::Confirming,
            ClientStage::Confirming => ClientStage::Acknowledgement,
            other => other,
        };
        ClientProgress { stage, ..*self }
    }

    /// The client after it read `bytes`, or why the handshake fails then.
    pub open spec fn after_reading(&self, bytes: Seq<u8>) -> Result<ClientProgress, Error> {
        if self.stage == ClientStage::Answer {
            let received = self.received + bytes;
            match status_answer(received) {
                Err(error) => Err(error),
                Ok(StatusStep::Read(_)) => Ok(ClientProgress { received, ..*self }),
                Ok(StatusStep::Slot(slot)) => Ok(
                    ClientProgress { stage: ClientStage::Mapping, received, slot, ..*self },
                ),
            }
        } else if bytes == ATTACHED@ {
            Ok(ClientProgress { stage: ClientStage::Attached, ..*self })
        } else {
            Err(Error::Protocol("server sent an invalid attachment acknowledgement"))
        }
    }
}

impl ClientHandshake {
    /// What is known of this client.
    pub closed spec fn progress(&self) -> ClientProgress {
        ClientProgress {
            stage: self.stage,
            port: self.port@,
            received: self.received@,
            slot: self.slot,
        }
    }

    /// Begins to ask for `port`, if that is a valid name.
    pub fn new(port: String) -> (client: Result<Self, Error>)
        ensures
            match port_fault(port@) {
                Some(error) => client matches Err(e) && e == error,
                None => client matches Ok(client) && client.progress()
                    == ClientProgress::start(port@) && client.progress().wf(),
            },
            client is Ok <==> 0 < encode_utf8(port@).len() <= 255,
    {
        match validate_port(port.as_str()) {
            Ok(()) => {
                let client = ClientHandshake {
                    stage: ClientStage::Requesting,
                    port,
                    received: Vec::new(),
                    slot: 0,
                };
                assert(client.progress() =~= ClientProgress::start(port@));
                Ok(client)
            },
            Err(error) => Err(error),
        }
    }

    /// Returns what the client does next.
    pub fn next(&self) -> (action: ClientAction)
        requires
            self.progress().wf(),
        ensures
            action@ == self.progress().task(),
    {
        match self.stage {
            ClientStage::Requesting => match encode_request(self.port.as_str()) {
                Ok(request) => ClientAction::Send(request),
                Err(_) => unreached(),
            },
            ClientStage::Answer => match receive_status(self.received.as_slice()) {
                Ok(StatusStep::Read(missing)) => ClientAction::Read(missing),
                _ => unreached(),
            },
            ClientStage::Mapping => ClientAction::ReceiveMapping,
            ClientStage::Attaching => ClientAction::Attach,
            ClientStage::Confirming => {
                let mut bytes: Vec<u8> = Vec::new();
                bytes.extend_from_slice(&READY);
                assert(bytes@ =~= READY@);
                ClientAction::Send(bytes)
            },
            ClientStage::Acknowledgement => ClientAction::Read(1),
            ClientStage::Attached => ClientAction::Finish(self.slot),
        }
    }

    /// Takes note that the client did what it was asked to, where that was not to read.
    pub fn done(&mut self)
        requires
            old(self).progress().wf(),
            old(self).progress().task() !is Read,
        ensures
            final(self).progress() == old(self).progress().after_doing(),
            final(self).progress().wf(),
    {
        self.stage =
        match self.stage {
            ClientStage::Requesting => ClientStage::Answer,
            ClientStage::Mapping => ClientStage::Attaching,
            ClientStage::Attaching => ClientStage::Confirming,
            ClientStage::Confirming => ClientStage::Acknowledgement,
            other => other,
        };
    }

    /// Takes the bytes that the client read. Where they fail the handshake, it stays where it
    /// was.
    pub fn read(&mut self, bytes: &[u8]) -> (outcome: Result<(), Error>)
        requires
            old(self).progress().wf(),
            old(self).progress().task() matches ClientTask::Read(count) && bytes@.len() == count,
        ensures
            match old(self).progress().after_reading(bytes@) {
                Ok(progress) => outcome is Ok && final(self).progress() == progress
                    && progress.wf(),
                Err(error) => outcome == Err::<(), Error>(error) && final(self).progress()
                    == old(self).progress(),
            },
    {
        match self.stage {
            ClientStage::Answer => {
                let known: usize = self.received.len();
                self.received.extend_from_slice(bytes);
                match receive_status(self.received.as_slice()) {
                    Ok(StatusStep::Slot(slot)) => {
                        self.slot = slot;
                        self.stage = ClientStage::Mapping;
                        Ok(())
                    },
                    Ok(StatusStep::Read(_)) => Ok(()),
                    Err(error) => {
                        self.received.truncate(known);
                        assert(self.received@ =~= old(self).received@);
                        Err(error)
                    },
                }
            },
            _ => match receive_attached([bytes[0]]) {
                Ok(()) => {
                    assert(bytes@ =~= ATTACHED@);
                    self.stage = ClientStage::Attached;
                    Ok(())
                },
                Err(error) => {
                    assert([bytes@[0]]@ =~= bytes@);
                    Err(error)
                },
            },
        }
    }
}

} // verus!

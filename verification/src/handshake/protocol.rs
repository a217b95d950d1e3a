//! Encodes and decodes the meaningful messages in the handshake protocol.
//!
//! A client sends its request: the protocol version, the length of the port name, and
//! the name. The server answers with the version and a status, and on success with the
//! reader's slot. Once the client has mapped the ring it confirms that it is ready, and
//! the server acknowledges the attachment.

use crate::error::{
    incompatible_protocol, invalid_input, port_not_found, protocol, reader_capacity_exhausted,
    Error,
};
use vstd::prelude::*;
use vstd::utf8::{decode_utf8, encode_utf8, valid_utf8};

verus! {

/// The version of the control protocol.
pub const VERSION: u8 = 1;

/// What a client sends once it has mapped the ring.
pub const READY: [u8; 8] = [0x49, 0x50, 0x43, 0x52, 0x44, 0x59, 0x30, 0x31];

/// What the server sends once the reader is attached.
pub const ATTACHED: [u8; 1] = [0];

/// How the server answers a request.
#[derive(Clone, Copy, Debug, PartialEq, Eq, Structural)]
pub enum Status {
    Accepted,
    Busy,
    NotFound,
    Invalid,
    Incompatible,
}

impl Status {
    /// The byte that stands for this status.
    pub open spec fn spec_code(self) -> u8 {
        match self {
            Status::Accepted => 0,
            Status::Busy => 1,
            Status::NotFound => 2,
            Status::Invalid => 3,
            Status::Incompatible => 4,
        }
    }

    /// Returns the byte that stands for this status.
    pub fn code(self) -> (code: u8)
        ensures
            code == self.spec_code(),
    {
        match self {
            Status::Accepted => 0,
            Status::Busy => 1,
            Status::NotFound => 2,
            Status::Invalid => 3,
            Status::Incompatible => 4,
        }
    }
}

/// `String::from_utf8`: succeeds on exactly the valid UTF-8 sequences, with the text that
/// they encode.
#[verifier::external_body]
fn text_from_utf8(bytes: Vec<u8>) -> (text: Option<String>)
    ensures
        text is Some <==> valid_utf8(bytes@),
        text matches Some(text) ==> encode_utf8(text@) == bytes@,
{
    String::from_utf8(bytes).ok()
}

/// What is wrong with a port name, if anything. Its length is counted in UTF-8 bytes.
pub open spec fn port_fault(port: Seq<char>) -> Option<Error> {
    if port.len() == 0 {
        Some(Error::InvalidInput("port must not be empty"))
    } else if encode_utf8(port).len() > 255 {
        Some(Error::InvalidInput("port must be at most 255 UTF-8 bytes"))
    } else {
        None
    }
}

/// Checks a port name.
pub fn validate_port(port: &str) -> (outcome: Result<(), Error>)
    ensures
        outcome == (match port_fault(port@) {
            Some(error) => Err::<(), Error>(error),
            None => Ok(()),
        }),
        outcome is Ok <==> 0 < encode_utf8(port@).len() <= 255,
{
    proof {
        law_ports_are_valid_by_their_length(port@);
    }
    if port.is_empty() {
        return Err(invalid_input("port must not be empty"));
    }
    if port.as_bytes().len() > 255 {
        return Err(invalid_input("port must be at most 255 UTF-8 bytes"));
    }
    Ok(())
}

/// The request for `port`.
pub open spec fn request_bytes(port: Seq<char>) -> Seq<u8> {
    seq![VERSION, encode_utf8(port).len() as u8] + encode_utf8(port)
}

/// Returns the request for `port`.
pub fn encode_request(port: &str) -> (request: Result<Vec<u8>, Error>)
    ensures
        match port_fault(port@) {
            Some(error) => request matches Err(e) && e == error,
            None => request matches Ok(bytes) && bytes@ == request_bytes(port@),
        },
        request is Ok <==> 0 < encode_utf8(port@).len() <= 255,
{
    match validate_port(port) {
        Ok(()) => {},
        Err(error) => return Err(error),
    }
    let name = port.as_bytes();
    let mut bytes: Vec<u8> = Vec::new();
    bytes.push(VERSION);
    bytes.push(name.len() as u8);
    bytes.extend_from_slice(name);
    assert(bytes@ =~= request_bytes(port@));
    Ok(bytes)
}

/// What a server knows after it received the first bytes of a request.
pub enum RequestAnswer {
    /// This many more bytes must be read.
    Read(int),
    /// The client asks for this port.
    Port(Seq<char>),
    /// The request is refused with a status, and the handshake fails.
    Reject(Status, Error),
}

/// What a server makes of the first bytes of a request.
pub open spec fn request_answer(received: Seq<u8>) -> RequestAnswer {
    if received.len() < 2 {
        RequestAnswer::Read(2 - received.len())
    } else if received[0] != VERSION {
        RequestAnswer::Reject(Status::Incompatible, Error::IncompatibleProtocol)
    } else if received[1] == 0 {
        RequestAnswer::Reject(Status::Invalid, Error::Protocol("port must not be empty"))
    } else if received.len() < 2 + received[1] {
        RequestAnswer::Read(2 + received[1] - received.len())
    } else {
        let name = received.subrange(2, 2 + received[1]);
        if valid_utf8(name) {
            RequestAnswer::Port(decode_utf8(name))
        } else {
            RequestAnswer::Reject(Status::Invalid, Error::Protocol("port is not valid UTF-8"))
        }
    }
}

/// What a server does next about a request.
#[derive(Debug)]
pub enum RequestStep {
    /// Read this many more bytes.
    Read(usize),
    /// Route the client to this port.
    Port(String),
}

/// A refused request: what the client is told, and how the handshake fails.
#[derive(Clone, Copy, Debug, PartialEq, Eq)]
pub struct Rejection {
    pub status: Status,
    pub error: Error,
}

/// Takes the bytes of a request received so far, and decides what follows.
pub fn receive_request(received: &[u8]) -> (step: Result<RequestStep, Rejection>)
    ensures
        match request_answer(received@) {
            RequestAnswer::Read(missing) => step matches Ok(RequestStep::Read(n)) && n == missing,
            RequestAnswer::Port(port) => step matches Ok(RequestStep::Port(text)) && text@ == port,
            RequestAnswer::Reject(status, error) => step matches Err(rejection) && rejection == (
            Rejection { status, error }),
        },
{
    if received.len() < 2 {
        return Ok(RequestStep::Read(2 - received.len()));
    }
    if received[0] != VERSION {
        return Err(Rejection { status: Status::Incompatible, error: incompatible_protocol() });
    }
    let length: usize = received[1] as usize;
    if length == 0 {
        return Err(
            Rejection { status: Status::Invalid, error: protocol("port must not be empty") },
        );
    }
    if received.len() < 2 + length {
        return Ok(RequestStep::Read(2 + length - received.len()));
    }
    let name = vstd::slice::slice_subrange(received, 2, 2 + length);
    match text_from_utf8(vstd::slice::slice_to_vec(name)) {
        Some(port) => {
            proof {
                vstd::utf8::encode_utf8_decode_utf8(port@);
            }
            Ok(RequestStep::Port(port))
        },
        None => Err(
            Rejection { status: Status::Invalid, error: protocol("port is not valid UTF-8") },
        ),
    }
}

/// Returns the answer with `status`.
pub fn response(status: Status) -> (bytes: [u8; 2])
    ensures
        bytes@ == seq![VERSION, status.spec_code()],
{
    let bytes = [VERSION, status.code()];
    assert(bytes@ =~= seq![VERSION, status.spec_code()]);
    bytes
}

/// What a client makes of the version and the status of an answer.
pub open spec fn response_outcome(version: u8, status: u8) -> Result<(), Error> {
    if version != VERSION {
        Err(Error::IncompatibleProtocol)
    } else if status == Status::Accepted.spec_code() {
        Ok(())
    } else if status == Status::Busy.spec_code() {
        Err(Error::ReaderCapacityExhausted)
    } else if status == Status::NotFound.spec_code() {
        Err(Error::PortNotFound)
    } else if status == Status::Invalid.spec_code() {
        Err(Error::Protocol("server rejected the port"))
    } else if status == Status::Incompatible.spec_code() {
        Err(Error::IncompatibleProtocol)
    } else {
        Err(Error::Protocol("unknown routing status"))
    }
}

/// Checks the version and the status of an answer.
pub fn validate_response(answer: [u8; 2]) -> (outcome: Result<(), Error>)
    ensures
        outcome == response_outcome(answer@[0], answer@[1]),
{
    if answer[0] != VERSION {
        return Err(incompatible_protocol());
    }
    let status: u8 = answer[1];
    if status == Status::Accepted.code() {
        Ok(())
    } else if status == Status::Busy.code() {
        Err(reader_capacity_exhausted())
    } else if status == Status::NotFound.code() {
        Err(port_not_found())
    } else if status == Status::Invalid.code() {
        Err(protocol("server rejected the port"))
    } else if status == Status::Incompatible.code() {
        Err(incompatible_protocol())
    } else {
        Err(protocol("unknown routing status"))
    }
}

/// The whole answer with `status`, and with the reader's slot where there is one.
pub open spec fn status_bytes(status: Status, reader_slot: Option<u8>) -> Seq<u8> {
    match reader_slot {
        Some(slot) => seq![VERSION, status.spec_code(), slot],
        None => seq![VERSION, status.spec_code()],
    }
}

/// Returns the whole answer with `status`.
pub fn encode_status(status: Status, reader_slot: Option<u8>) -> (bytes: Vec<u8>)
    ensures
        bytes@ == status_bytes(status, reader_slot),
{
    let head = response(status);
    let mut bytes: Vec<u8> = Vec::new();
    bytes.push(head[0]);
    bytes.push(head[1]);
    match reader_slot {
        Some(slot) => bytes.push(slot),
        None => {},
    }
    assert(bytes@ =~= status_bytes(status, reader_slot));
    bytes
}

/// What a client does next about an answer.
#[derive(Clone, Copy, Debug, PartialEq, Eq, Structural)]
pub enum StatusStep {
    /// Read this many more bytes.
    Read(usize),
    /// The server reserved this slot.
    Slot(u8),
}

/// What a client makes of the first bytes of an answer. A refusal is known before a slot
/// is read.
pub open spec fn status_answer(received: Seq<u8>) -> Result<StatusStep, Error> {
    if received.len() < 2 {
        Ok(StatusStep::Read((2 - received.len()) as usize))
    } else {
        match response_outcome(received[0], received[1]) {
            Err(error) => Err(error),
            Ok(()) => if received.len() < 3 {
                Ok(StatusStep::Read(1))
            } else {
                Ok(StatusStep::Slot(received[2]))
            },
        }
    }
}

/// Takes the bytes of an answer received so far, and decides what follows.
pub fn receive_status(received: &[u8]) -> (step: Result<StatusStep, Error>)
    ensures
        step == status_answer(received@),
{
    if received.len() < 2 {
        return Ok(StatusStep::Read(2 - received.len()));
    }
    match validate_response([received[0], received[1]]) {
        Ok(()) => {},
        Err(error) => return Err(error),
    }
    if received.len() < 3 {
        Ok(StatusStep::Read(1))
    } else {
        Ok(StatusStep::Slot(received[2]))
    }
}

/// Checks a client's confirmation that it has mapped the ring.
pub fn receive_ready(received: [u8; 8]) -> (outcome: Result<(), Error>)
    ensures
        outcome == (if received@ == READY@ {
            Ok(())
        } else {
            Err(Error::Protocol("client did not confirm mapping attachment"))
        }),
{
    let mut index: usize = 0;
    while index < 8
        invariant
            index <= 8,
            forall|i: int| 0 <= i < index ==> received@[i] == READY@[i],
        decreases 8 - index,
    {
        if received[index] != READY[index] {
            assert(received@[index as int] != READY@[index as int]);
            return Err(protocol("client did not confirm mapping attachment"));
        }
        index = index + 1;
    }
    assert(received@ =~= READY@);
    Ok(())
}

/// Checks the server's acknowledgement of an attachment.
pub fn receive_attached(received: [u8; 1]) -> (outcome: Result<(), Error>)
    ensures
        outcome == (if received@ == ATTACHED@ {
            Ok(())
        } else {
            Err(Error::Protocol("server sent an invalid attachment acknowledgement"))
        }),
{
    if received[0] == ATTACHED[0] {
        assert(received@ =~= ATTACHED@);
        Ok(())
    } else {
        assert(received@[0] != ATTACHED@[0]);
        Err(protocol("server sent an invalid attachment acknowledgement"))
    }
}

/// A server reads the port that a client asked for, whatever valid name it has.
pub proof fn law_requests_arrive(port: Seq<char>)
    requires
        port_fault(port) is None,
    ensures
        request_answer(request_bytes(port)) == RequestAnswer::Port(port),
{
    let name = encode_utf8(port);
    let request = request_bytes(port);
    vstd::utf8::encode_utf8_valid_utf8(port);
    vstd::utf8::encode_utf8_decode_utf8(port);
    lemma_text_has_bytes(port);
    assert(request.subrange(2, 2 + request[1]) =~= name);
}

/// While a valid request is incomplete, a server reads on, and never past its end.
pub proof fn law_incomplete_requests_are_read_on(port: Seq<char>, received: int)
    requires
        port_fault(port) is None,
        0 <= received < request_bytes(port).len(),
    ensures
        ({
            let answer = request_answer(request_bytes(port).take(received));
            &&& answer is Read
            &&& 0 < answer->Read_0 <= request_bytes(port).len() - received
        }),
{
    let request = request_bytes(port);
    lemma_text_has_bytes(port);
    let start = request.take(received);
    assert(received >= 1 ==> start[0] == request[0]);
    assert(received >= 2 ==> start[1] == request[1]);
}

/// A text that is not empty has bytes.
proof fn lemma_text_has_bytes(text: Seq<char>)
    requires
        text.len() > 0,
    ensures
        encode_utf8(text).len() > 0,
{
    vstd::utf8::encode_utf8_decode_utf8(text);
    if encode_utf8(text).len() == 0 {
        assert(decode_utf8(encode_utf8(text)).len() == 0);
    }
}

/// A client learns from an answer exactly what the server decided: the slot that it
/// reserved, or why it refused.
pub proof fn law_answers_arrive(status: Status, slot: u8)
    ensures
        status_answer(status_bytes(Status::Accepted, Some(slot))) == Ok::<StatusStep, Error>(
            StatusStep::Slot(slot),
        ),
        status_answer(status_bytes(Status::Busy, None)) == Err::<StatusStep, Error>(
            Error::ReaderCapacityExhausted,
        ),
        status_answer(status_bytes(Status::NotFound, None)) == Err::<StatusStep, Error>(
            Error::PortNotFound,
        ),
        status_answer(status_bytes(Status::Invalid, None)) == Err::<StatusStep, Error>(
            Error::Protocol("server rejected the port"),
        ),
        status_answer(status_bytes(Status::Incompatible, None)) == Err::<StatusStep, Error>(
            Error::IncompatibleProtocol,
        ),
        status != Status::Accepted ==> status_answer(status_bytes(status, None)) is Err,
{
}

/// What a refused request is answered: a client of another version learns that the
/// versions differ, and a client with an unusable port that its port was rejected.
pub proof fn law_refused_requests_are_answered(received: Seq<u8>)
    requires
        request_answer(received) is Reject,
    ensures
        ({
            let status = request_answer(received)->Reject_0;
            let learned = status_answer(status_bytes(status, None));
            if received[0] != VERSION {
                learned == Err::<StatusStep, Error>(Error::IncompatibleProtocol)
            } else {
                learned == Err::<StatusStep, Error>(Error::Protocol("server rejected the port"))
            }
        }),
{
}

/// A port is a valid one exactly where it has between 1 and 255 UTF-8 bytes, whatever they are.
/// Any other is refused for being empty or for being too long.
pub proof fn law_ports_are_valid_by_their_length(port: Seq<char>)
    ensures
        port_fault(port) is None <==> 0 < encode_utf8(port).len() <= 255,
        port_fault(port) == Some(Error::InvalidInput("port must not be empty")) <==> encode_utf8(
            port,
        ).len() == 0,
        port_fault(port) == Some(Error::InvalidInput("port must be at most 255 UTF-8 bytes"))
            <==> encode_utf8(port).len() > 255,
{
    if port.len() > 0 {
        lemma_text_has_bytes(port);
    }
    reveal_strlit("port must not be empty");
    reveal_strlit("port must be at most 255 UTF-8 bytes");
    assert("port must not be empty"@.len() != "port must be at most 255 UTF-8 bytes"@.len());
}

/// A request is the version, the length of the name in bytes, and the name, in this order.
pub proof fn law_requests_name_their_length(port: Seq<char>)
    requires
        0 < encode_utf8(port).len() <= 255,
    ensures
        ({
            let request = request_bytes(port);
            &&& request.len() == 2 + encode_utf8(port).len()
            &&& request[0] == 1
            &&& request[1] == encode_utf8(port).len()
            &&& request.subrange(2, request.len() as int) == encode_utf8(port)
        }),
{
    assert(request_bytes(port).subrange(2, request_bytes(port).len() as int) =~= encode_utf8(port));
}

/// What a server makes of any bytes that it received: it reads the version and the length first,
/// and then exactly as many bytes more as the length says. Another version, an empty name and a
/// name that is not UTF-8 are refused, and every other name is the port.
pub proof fn law_servers_take_every_named_port(received: Seq<u8>, port: Seq<char>)
    ensures
        ({
            let answer = request_answer(received);
            let length = received[1] as int;
            &&& received.len() < 2 ==> answer == RequestAnswer::Read(2 - received.len())
            &&& received.len() >= 2 && received[0] != 1 ==> answer == RequestAnswer::Reject(
                Status::Incompatible,
                Error::IncompatibleProtocol,
            )
            &&& received.len() >= 2 && received[0] == 1 && length == 0 ==> answer
                == RequestAnswer::Reject(Status::Invalid, Error::Protocol("port must not be empty"))
            &&& 2 <= received.len() < 2 + length && received[0] == 1 ==> answer
                == RequestAnswer::Read(2 + length - received.len())
            &&& received.len() >= 2 + length && received[0] == 1 && length > 0
                && received.subrange(2, 2 + length) == encode_utf8(port) ==> answer
                == RequestAnswer::Port(port)
            &&& received.len() >= 2 + length && received[0] == 1 && length > 0 && !valid_utf8(
                received.subrange(2, 2 + length),
            ) ==> answer == RequestAnswer::Reject(
                Status::Invalid,
                Error::Protocol("port is not valid UTF-8"),
            )
        }),
{
    vstd::utf8::encode_utf8_valid_utf8(port);
    vstd::utf8::encode_utf8_decode_utf8(port);
}

/// Each status has a byte of its own, which never changes: zero admits, and one to four refuse.
pub proof fn law_statuses_are_bytes_of_their_own(status: Status, other: Status)
    ensures
        status.spec_code() == other.spec_code() ==> status == other,
        status.spec_code() <= 4,
        status.spec_code() == 0 <==> status is Accepted,
        status.spec_code() == 1 <==> status is Busy,
        status.spec_code() == 2 <==> status is NotFound,
        status.spec_code() == 3 <==> status is Invalid,
        status.spec_code() == 4 <==> status is Incompatible,
{
}

/// A client is admitted by exactly one answer, that of its own version with the status that
/// admits. Every other answer is an error, and which one depends on the version and the status
/// alone; one that no server sends is an error too.
pub proof fn law_one_answer_admits(version: u8, status: u8)
    ensures
        response_outcome(version, status) is Ok <==> version == 1 && status == 0,
        version != 1 || status == 4 ==> response_outcome(version, status) == Err::<(), Error>(
            Error::IncompatibleProtocol,
        ),
        version == 1 && status == 1 ==> response_outcome(version, status) == Err::<(), Error>(
            Error::ReaderCapacityExhausted,
        ),
        version == 1 && status == 2 ==> response_outcome(version, status) == Err::<(), Error>(
            Error::PortNotFound,
        ),
        version == 1 && status == 3 ==> response_outcome(version, status) == Err::<(), Error>(
            Error::Protocol("server rejected the port"),
        ),
        version == 1 && status > 4 ==> response_outcome(version, status) == Err::<(), Error>(
            Error::Protocol("unknown routing status"),
        ),
{
}

/// What a client makes of any bytes that it received: it reads the version and the status first,
/// fails there if they refuse it, and reads the slot only where they admit it.
pub proof fn law_clients_read_a_slot_when_admitted(received: Seq<u8>)
    ensures
        received.len() < 2 ==> (status_answer(received) matches Ok(StatusStep::Read(missing))
            && received.len() + missing == 2),
        received.len() >= 2 && (received[0] != 1 || received[1] != 0) ==> status_answer(received)
            is Err && status_answer(received)->Err_0 == response_outcome(
            received[0],
            received[1],
        )->Err_0,
        received.len() == 2 && received[0] == 1 && received[1] == 0 ==> status_answer(received)
            == Ok::<StatusStep, Error>(StatusStep::Read(1)),
        received.len() >= 3 && received[0] == 1 && received[1] == 0 ==> status_answer(received)
            == Ok::<StatusStep, Error>(StatusStep::Slot(received[2])),
{
}

/// An answer is the version, the status and, where there is one, the slot, in this order.
pub proof fn law_answers_name_their_status(status: Status, slot: u8)
    ensures
        status_bytes(status, None).len() == 2,
        status_bytes(status, None)[0] == 1,
        status_bytes(status, None)[1] == status.spec_code(),
        status_bytes(status, Some(slot)) == status_bytes(status, None).push(slot),
{
    assert(status_bytes(status, Some(slot)) =~= status_bytes(status, None).push(slot));
}

} // verus!

//! What a handshake guarantees to both of its sides.

use crate::error::Error;
use crate::handshake::client::{ClientProgress, ClientStage, ClientTask};
use crate::handshake::protocol::{
    port_fault, request_answer, request_bytes, response_outcome, status_bytes, Rejection, Status,
    ATTACHED, READY,
};
use crate::handshake::server::{ServerProgress, ServerStage, ServerTask};
use vstd::prelude::*;
use vstd::utf8::encode_utf8;

verus! {

/// A server that reads the request of a client arrives at the port that the client asks for:
/// it reads the version and the length, then the name, and is then to route that port.
pub proof fn law_servers_read_the_requested_port(port: Seq<char>)
    requires
        port_fault(port) is None,
    ensures
        ({
            let client = ClientProgress::start(port);
            let head = request_bytes(port).take(2);
            let name = request_bytes(port).skip(2);
            let reading = ServerProgress::start().after_reading(head);
            let routing = reading->Ok_0.after_reading(name);
            &&& client.task() == ClientTask::Send(head + name)
            &&& ServerProgress::start().task() == ServerTask::Read(head.len() as int)
            &&& reading is Ok
            &&& reading->Ok_0.wf()
            &&& reading->Ok_0.task() == ServerTask::Read(name.len() as int)
            &&& routing is Ok
            &&& routing->Ok_0.task() == ServerTask::Route(port)
        }),
{
    let request = request_bytes(port);
    let head = request.take(2);
    let name = request.skip(2);
    assert(head + name =~= request);
    assert(ServerProgress::start().received + head =~= head);
    crate::handshake::protocol::law_requests_arrive(port);
    crate::handshake::protocol::law_incomplete_requests_are_read_on(port, 0);
    crate::handshake::protocol::law_incomplete_requests_are_read_on(port, 2);
    assert(name =~= encode_utf8(port));
    let reading = ServerProgress::start().after_reading(head)->Ok_0;
    assert(reading.received =~= head);
    assert(reading.received + name =~= request);
}

/// A client that is admitted and a server that admits it meet: the client learns the slot
/// that the server reserved, both attach in the order mapping, confirmation, activation,
/// acknowledgement, and both finish.
pub proof fn law_admitted_clients_attach(client: ClientProgress, server: ServerProgress, slot: u8)
    requires
        client.stage == ClientStage::Requesting,
        client.wf(),
        server.stage == ServerStage::Routing,
    ensures
        ({
            let accepting = server.after_routing(Ok(slot));
            let answer = status_bytes(Status::Accepted, Some(slot));
            let asked = client.after_doing();
            let told = asked.after_reading(answer.take(2));
            let admitted = told->Ok_0.after_reading(answer.skip(2));
            let mapping = accepting.after_doing();
            let awaiting = mapping.after_doing();
            let attaching = admitted->Ok_0.after_doing();
            let confirming = attaching.after_doing();
            let confirmed = confirming.after_doing();
            let activating = awaiting.after_reading(READY@);
            let acknowledging = activating->Ok_0.after_doing();
            &&& accepting.task() == ServerTask::Send(answer)
            &&& asked.task() == ClientTask::Read(2)
            &&& told is Ok
            &&& told->Ok_0.task() == ClientTask::Read(1)
            &&& admitted is Ok
            &&& mapping.task() == ServerTask::SendMapping
            &&& admitted->Ok_0.task() == ClientTask::ReceiveMapping
            &&& attaching.task() == ClientTask::Attach
            &&& confirming.task() == ClientTask::Send(READY@)
            &&& awaiting.task() == ServerTask::Read(READY@.len() as int)
            &&& activating is Ok
            &&& activating->Ok_0.task() == ServerTask::Activate
            &&& acknowledging.task() == ServerTask::Send(ATTACHED@)
            &&& acknowledging.after_doing().task() == ServerTask::Finish
            &&& confirmed.task() == ClientTask::Read(ATTACHED@.len() as int)
            &&& confirmed.after_reading(ATTACHED@) is Ok
            &&& confirmed.after_reading(ATTACHED@)->Ok_0.task() == ClientTask::Finish(slot)
        }),
{
    let answer = status_bytes(Status::Accepted, Some(slot));
    let asked = client.after_doing();
    assert(asked.received + answer.take(2) =~= answer.take(2));
    let told = asked.after_reading(answer.take(2))->Ok_0;
    assert(told.received =~= answer.take(2));
    assert(told.received + answer.skip(2) =~= answer);
    assert(READY@.len() == 8);
}

/// A client that is refused learns it from the server's whole answer, with the failure that
/// stands for the status, before it receives a mapping. The server fails with its own reason.
pub proof fn law_refused_clients_fail(
    client: ClientProgress,
    server: ServerProgress,
    rejection: Rejection,
)
    requires
        client.stage == ClientStage::Requesting,
        client.wf(),
        server.stage == ServerStage::Refusing(rejection),
        rejection.status != Status::Accepted,
    ensures
        ({
            let answer = status_bytes(rejection.status, None);
            let asked = client.after_doing();
            &&& server.task() == ServerTask::Send(answer)
            &&& server.after_doing().task() == ServerTask::Fail(rejection.error)
            &&& asked.task() == ClientTask::Read(answer.len() as int)
            &&& asked.after_reading(answer) is Err
            &&& asked.after_reading(answer)->Err_0 == response_outcome(
                answer[0],
                answer[1],
            )->Err_0
        }),
{
    let answer = status_bytes(rejection.status, None);
    assert(client.after_doing().received + answer =~= answer);
}

/// No reader is activated before its client confirmed that it mapped the ring, nothing is
/// acknowledged before the reader was activated, and a server finishes only after it
/// acknowledged.
pub proof fn law_readers_are_activated_between_confirmation_and_acknowledgement(
    server: ServerProgress,
    bytes: Seq<u8>,
    admission: Result<u8, Rejection>,
)
    requires
        server.wf(),
    ensures
        server.task() is Read ==> {
            server.after_reading(bytes) matches Ok(next) ==> {
                next.stage == ServerStage::Activating ==> {
                    &&& server.stage == ServerStage::Confirmation
                    &&& bytes == READY@
                }
            }
        },
        server.task() is Route ==> {
            let next = server.after_routing(admission);
            next.task() is Send
        },
        server.task() !is Read && server.task() !is Route && server.after_doing() != server ==> {
            let next = server.after_doing();
            &&& next.stage != ServerStage::Activating
            &&& next.stage == ServerStage::Acknowledging ==> server.task() is Activate
            &&& next.stage == ServerStage::Attached ==> server.task() == ServerTask::Send(ATTACHED@)
                && server.stage == ServerStage::Acknowledging
        },
{
}

/// A client confirms only a mapping that it received and attached, and finishes only with the
/// slot of an answer that admitted it and after the server's acknowledgement.
pub proof fn law_clients_confirm_what_they_attached(client: ClientProgress, bytes: Seq<u8>)
    requires
        client.wf(),
    ensures
        client.task() is Read ==> {
            let read = client.after_reading(bytes);
            read matches Ok(next) ==> {
                &&& next.stage == ClientStage::Mapping ==> client.stage == ClientStage::Answer
                &&& next.stage == ClientStage::Attached ==> {
                    &&& client.stage == ClientStage::Acknowledgement
                    &&& bytes == ATTACHED@
                    &&& next.slot == client.slot
                }
                &&& next.stage != ClientStage::Confirming
            }
        },
        client.task() !is Read && client.after_doing() != client ==> {
            let next = client.after_doing();
            &&& next.stage == ClientStage::Attaching ==> client.task() is ReceiveMapping
            &&& next.stage == ClientStage::Confirming ==> client.task() is Attach
            &&& next.stage == ClientStage::Acknowledgement ==> client.task() == ClientTask::Send(
                READY@,
            )
            &&& next.slot == client.slot
        },
{
}

/// A request that a server cannot use is refused with the status that names why, and no slot
/// is reserved for it.
pub proof fn law_unusable_requests_are_refused(server: ServerProgress, bytes: Seq<u8>)
    requires
        server.stage == ServerStage::Request,
        request_answer(server.received + bytes) is Reject,
    ensures
        server.after_reading(bytes) is Ok,
        ({
            let next = server.after_reading(bytes)->Ok_0;
            let answer = request_answer(server.received + bytes);
            &&& next.task() == ServerTask::Send(status_bytes(answer->Reject_0, None))
            &&& next.after_doing().task() == ServerTask::Fail(answer->Reject_1)
            &&& next.slot == server.slot
        }),
{
}

/// A confirmation or an acknowledgement that is not the expected one fails the handshake there,
/// whatever else it is.
pub proof fn law_wrong_confirmations_fail(
    server: ServerProgress,
    client: ClientProgress,
    bytes: Seq<u8>,
)
    requires
        server.stage == ServerStage::Confirmation,
        client.stage == ClientStage::Acknowledgement,
    ensures
        server.after_reading(bytes) is Ok <==> bytes == READY@,
        bytes != READY@ ==> server.after_reading(bytes) == Err::<ServerProgress, Error>(
            Error::Protocol("client did not confirm mapping attachment"),
        ),
        client.after_reading(bytes) is Ok <==> bytes == ATTACHED@,
        bytes != ATTACHED@ ==> client.after_reading(bytes) == Err::<ClientProgress, Error>(
            Error::Protocol("server sent an invalid attachment acknowledgement"),
        ),
{
}

/// A client may ask for every port of 1 to 255 bytes, and begins with its request for it.
pub proof fn law_clients_ask_for_every_port(port: Seq<char>)
    requires
        0 < encode_utf8(port).len() <= 255,
    ensures
        ClientProgress::start(port).wf(),
        ClientProgress::start(port).task() == ClientTask::Send(request_bytes(port)),
        request_bytes(port) == seq![1u8, encode_utf8(port).len() as u8] + encode_utf8(port),
{
    crate::handshake::protocol::law_ports_are_valid_by_their_length(port);
}

/// A client that is not admitted is told the status of its refusal, and the server then fails with
/// the refusal's own error; one that is admitted is told the slot that it was given.
pub proof fn law_routed_clients_are_told(
    server: ServerProgress,
    rejection: Rejection,
    slot: u8,
)
    ensures
        server.after_routing(Err(rejection)).task() == ServerTask::Send(
            status_bytes(rejection.status, None),
        ),
        server.after_routing(Err(rejection)).after_doing().task() == ServerTask::Fail(
            rejection.error,
        ),
        server.after_routing(Ok(slot)).task() == ServerTask::Send(
            status_bytes(Status::Accepted, Some(slot)),
        ),
        server.after_routing(Ok(slot)).slot == slot,
{
}

} // verus!

use ipc_ring::error::{Error, ErrorKind};
use ipc_ring::handshake::client::{ClientAction, ClientHandshake};
use ipc_ring::handshake::protocol::{Rejection, Status};
use ipc_ring::handshake::server::{ServerAction, ServerHandshake};
use std::collections::VecDeque;

/// What happened in a handshake that was carried out over two byte queues.
struct Transcript {
    steps: Vec<&'static str>,
    routed: Option<String>,
    client: Option<Result<u8, Error>>,
    server: Option<Result<(), Error>>,
}

fn take(queue: &mut VecDeque<u8>, count: usize) -> Option<Vec<u8>> {
    if queue.len() < count {
        None
    } else {
        Some(queue.drain(..count).collect())
    }
}

/// Carries out both sides in turn until both are done.
fn run(port: &str, admission: Result<u8, Rejection>) -> Transcript {
    let mut client = ClientHandshake::new(port.to_string()).unwrap();
    let mut server = ServerHandshake::new();
    let mut to_server = VecDeque::new();
    let mut to_client = VecDeque::new();
    let mut mapping = false;
    let mut transcript = Transcript {
        steps: Vec::new(),
        routed: None,
        client: None,
        server: None,
    };
    for _ in 0..64 {
        if transcript.client.is_none() {
            match client.next() {
                ClientAction::Send(bytes) => {
                    to_server.extend(bytes);
                    client.done();
                }
                ClientAction::Read(count) => {
                    if let Some(bytes) = take(&mut to_client, count) {
                        if let Err(error) = client.read(&bytes) {
                            transcript.client = Some(Err(error));
                        }
                    }
                }
                ClientAction::ReceiveMapping => {
                    if mapping {
                        transcript.steps.push("received");
                        client.done();
                    }
                }
                ClientAction::Attach => {
                    transcript.steps.push("mapped");
                    client.done();
                }
                ClientAction::Finish(slot) => transcript.client = Some(Ok(slot)),
            }
        }
        if transcript.server.is_none() {
            match server.next() {
                ServerAction::Read(count) => {
                    if let Some(bytes) = take(&mut to_server, count) {
                        if let Err(error) = server.read(&bytes) {
                            transcript.server = Some(Err(error));
                        }
                    }
                }
                ServerAction::Route(port) => {
                    transcript.routed = Some(port);
                    server.routed(admission);
                }
                ServerAction::Send(bytes) => {
                    to_client.extend(bytes);
                    server.done();
                }
                ServerAction::SendMapping => {
                    mapping = true;
                    server.done();
                }
                ServerAction::Activate => {
                    transcript.steps.push("activated");
                    server.done();
                }
                ServerAction::Finish => transcript.server = Some(Ok(())),
                ServerAction::Fail(error) => transcript.server = Some(Err(error)),
            }
        }
    }
    transcript
}

#[test]
fn admitted_clients_attach_in_order() {
    let transcript = run("évènements", Ok(17));
    assert_eq!(transcript.routed.as_deref(), Some("évènements"));
    assert_eq!(transcript.steps, vec!["received", "mapped", "activated"]);
    assert_eq!(transcript.client, Some(Ok(17)));
    assert_eq!(transcript.server, Some(Ok(())));
}

#[test]
fn refused_clients_learn_why() {
    let refusals = [
        Rejection { status: Status::NotFound, error: Error::PortNotFound },
        Rejection { status: Status::Busy, error: Error::ReaderCapacityExhausted },
    ];
    for rejection in refusals {
        let transcript = run("telemetry", Err(rejection));
        assert!(transcript.steps.is_empty());
        assert_eq!(transcript.client, Some(Err(rejection.error)));
        assert_eq!(transcript.server, Some(Err(rejection.error)));
    }
}

#[test]
fn clients_ask_for_valid_ports_only() {
    assert_eq!(
        ClientHandshake::new(String::new()).unwrap_err().kind(),
        ErrorKind::InvalidInput
    );
    assert!(ClientHandshake::new("x".repeat(256)).is_err());
}

#[test]
fn unusable_requests_are_answered_before_they_fail() {
    let mut server = ServerHandshake::new();
    assert!(matches!(server.next(), ServerAction::Read(2)));
    server.read(&[9, 3]).unwrap();
    assert!(matches!(server.next(), ServerAction::Send(bytes) if bytes == [1, 4]));
    server.done();
    assert!(matches!(
        server.next(),
        ServerAction::Fail(Error::IncompatibleProtocol)
    ));

    let mut server = ServerHandshake::new();
    server.read(&[1, 1]).unwrap();
    assert!(matches!(server.next(), ServerAction::Read(1)));
    server.read(&[0xff]).unwrap();
    assert!(matches!(server.next(), ServerAction::Send(bytes) if bytes == [1, 3]));
}

#[test]
fn wrong_confirmations_end_the_handshake() {
    let mut server = ServerHandshake::new();
    server.read(&[1, 1]).unwrap();
    server.read(b"a").unwrap();
    assert!(matches!(server.next(), ServerAction::Route(port) if port == "a"));
    server.routed(Ok(5));
    assert!(matches!(server.next(), ServerAction::Send(bytes) if bytes == [1, 0, 5]));
    server.done();
    server.done();
    assert!(matches!(server.next(), ServerAction::Read(8)));
    assert_eq!(
        server.read(b"IPCRDY02").unwrap_err(),
        Error::Protocol("client did not confirm mapping attachment")
    );

    let mut client = ClientHandshake::new("a".to_string()).unwrap();
    assert!(matches!(client.next(), ClientAction::Send(bytes) if bytes == [1, 1, b'a']));
    client.done();
    client.read(&[1, 0]).unwrap();
    client.read(&[63]).unwrap();
    client.done();
    client.done();
    assert!(matches!(client.next(), ClientAction::Send(bytes) if bytes == b"IPCRDY01"));
    client.done();
    assert!(matches!(client.next(), ClientAction::Read(1)));
    assert_eq!(
        client.read(&[1]).unwrap_err(),
        Error::Protocol("server sent an invalid attachment acknowledgement")
    );
    assert!(matches!(client.next(), ClientAction::Read(1)));
}

use ipc_ring::error::{Error, ErrorKind};
use ipc_ring::handshake::protocol::{Rejection, Status};
use ipc_ring::ipc::consumer::ConnectOptions;
use ipc_ring::ipc::registered::RegisteredRing;
use ipc_ring::ipc::server::registry::{Server, ServerRegistry};
use ipc_ring::ipc::server::route::{admission, route};
use ipc_ring::ipc::server::run::{
    Await, Listener, ListenerEvent, ListenerStep, ServerOptions, MAX_CONCURRENT_HANDSHAKES,
};
use ipc_ring::mapping::{attach, Layout};
use std::time::Duration;

#[test]
fn handshakes_take_a_second_by_default() {
    assert_eq!(ConnectOptions::new().handshake_timeout, Duration::from_millis(1000));
    assert_eq!(ConnectOptions::default().handshake_timeout, Duration::from_secs(1));
    assert_eq!(ServerOptions::new().handshake_timeout, Duration::from_millis(1000));
    assert_eq!(ServerOptions::default().handshake_timeout, Duration::from_secs(1));
    let quick = Duration::from_millis(20);
    assert_eq!(
        ConnectOptions::new().handshake_timeout(quick).handshake_timeout,
        quick
    );
    assert_eq!(
        ServerOptions::new().handshake_timeout(quick).handshake_timeout,
        quick
    );
}

#[test]
fn ports_route_to_their_live_rings() {
    let mut registry = ServerRegistry::new();
    assert_eq!(registry.find("telemetry"), None);
    let telemetry = registry.register_ring("telemetry".to_string(), 64 * 1024).unwrap();
    let events = registry.register_ring("évènements".to_string(), 1).unwrap();
    assert_eq!(telemetry.producer.state.capacity, 64 * 1024);
    assert_eq!(registry.find("telemetry"), Some(telemetry.id));
    assert_eq!(registry.find("évènements"), Some(events.id));
    assert_eq!(registry.registrations(), 2);
    assert_ne!(telemetry.id, events.id);

    assert_eq!(
        registry.register_ring("telemetry".to_string(), 1).unwrap_err().kind(),
        ErrorKind::AlreadyExists
    );
    registry.retire(telemetry.id);
    assert_eq!(registry.find("telemetry"), None);
    assert_eq!(registry.find("évènements"), Some(events.id));
    let again = registry.register_ring("telemetry".to_string(), 1).unwrap();
    assert_eq!(registry.find("telemetry"), Some(again.id));
    assert_ne!(again.id, telemetry.id);
    registry.retire(telemetry.id);
    assert_eq!(registry.find("telemetry"), Some(again.id));
}

#[test]
fn unusable_registrations_are_refused() {
    let mut registry = ServerRegistry::new();
    assert_eq!(
        registry.register_ring(String::new(), 1).unwrap_err(),
        Error::InvalidInput("port must not be empty")
    );
    assert_eq!(
        registry.register_ring("x".to_string(), usize::MAX).unwrap_err(),
        Error::InvalidInput("minimum capacity is too large")
    );
    assert_eq!(registry.find("x"), None);
    let mut gone = Server { registry: None };
    assert_eq!(
        gone.register("x".to_string(), 1).unwrap_err(),
        Error::PeerDisconnected
    );
    let mut server = Server { registry: Some(registry) };
    let registered = server.register("x".to_string(), 1).unwrap();
    assert_eq!(server.registry.unwrap().find("x"), Some(registered.id));
}

#[test]
fn clients_are_refused_without_a_ring_or_a_slot() {
    assert_eq!(
        route(None).unwrap_err(),
        Rejection { status: Status::NotFound, error: Error::PortNotFound }
    );
    assert_eq!(admission(Some(Ok(3))), Ok(3));
    assert_eq!(
        admission::<u8>(Some(Err(Error::ReaderCapacityExhausted))).unwrap_err().status,
        Status::Busy
    );
    let mut ring = RegisteredRing::create(1).unwrap();
    for slot in 0..64 {
        assert_eq!(route(Some(&mut ring)).unwrap().slot(), slot);
    }
    assert_eq!(
        route(Some(&mut ring)).unwrap_err(),
        Rejection { status: Status::Busy, error: Error::ReaderCapacityExhausted }
    );
}

#[test]
fn handshakes_are_bounded() {
    let timeout = Duration::from_millis(250);
    let mut listener = Listener::new(ServerOptions::new().handshake_timeout(timeout));
    assert_eq!(listener.next(), Await::Client);
    for _ in 1..MAX_CONCURRENT_HANDSHAKES {
        assert_eq!(
            listener.record(ListenerEvent::Accepted),
            ListenerStep::Begin(timeout)
        );
        assert_eq!(listener.next(), Await::ClientOrFinished);
    }
    listener.record(ListenerEvent::Accepted);
    assert_eq!(listener.next(), Await::Finished);
    assert_eq!(
        listener.record(ListenerEvent::Finished(Ok(()))),
        ListenerStep::Continue
    );
    assert_eq!(listener.next(), Await::ClientOrFinished);
}

#[test]
fn only_a_failed_accept_ends_the_listener() {
    let mut listener = Listener::new(ServerOptions::new());
    listener.record(ListenerEvent::Accepted);
    assert_eq!(
        listener.record(ListenerEvent::Finished(Err(Error::PortNotFound))),
        ListenerStep::Continue
    );
    assert_eq!(listener.next(), Await::Client);
    let error = Error::Os { kind: ErrorKind::Other, code: 24 };
    assert_eq!(
        listener.record(ListenerEvent::AcceptFailed(error)),
        ListenerStep::End(error)
    );
}

#[test]
fn rings_are_registered_with_a_known_layout() {
    let layout = Layout::for_page(5000, 4096).unwrap();
    let mut registry = ServerRegistry::new();
    let registered = registry.register_laid_out("a".to_string(), Ok(layout)).unwrap();
    assert_eq!(registered.producer.state.capacity, 8192);
    assert_eq!(registered.ring.readers.memory.capacity(), 8192);
    assert_eq!(registry.find("a"), Some(registered.id));
    assert_eq!(
        registry
            .register_laid_out("b".to_string(), Err(Error::InvalidInput("no room")))
            .unwrap_err(),
        Error::InvalidInput("no room")
    );
    assert_eq!(registry.find("b"), None);
    assert_eq!(
        registry
            .register_laid_out("a".to_string(), Err(Error::InvalidInput("no room")))
            .unwrap_err()
            .kind(),
        ErrorKind::AlreadyExists
    );
    let ring = RegisteredRing::with_layout(&layout);
    let header = ring.readers.memory.header;
    assert_eq!(attach(header.version, header.capacity, 12288, 4096).unwrap(), layout);
    assert_eq!((header.data_waiters, header.space_waiters), (0, 0));
    assert_eq!(header.read_positions, [0; 64]);
    assert_eq!(ring.readers.memory.payload, vec![0; 8192]);
}

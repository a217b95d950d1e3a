use ipc_ring::cursor::{Cursor, TryFork};
use ipc_ring::error::{Error, ErrorKind};
use ipc_ring::ipc;
use ipc_ring::local::{self, notification, LocalRing};
use ipc_ring::mapping::{minimum_capacity, Layout};
use ipc_ring::ring::producer::{ObservedReaders, ProducerState};
use ipc_ring::ring::reader::ReaderRegistry;

fn observe(producer: &mut ProducerState, registry: &ReaderRegistry) {
    let active = registry.active_readers();
    producer.observe(ObservedReaders::observe(&active, &registry.memory.header));
}

/// Publishes `data` through a local ring's producer.
fn publish(ring: &mut LocalRing, data: &[u8]) -> Result<(), Error> {
    observe(&mut ring.producer.cursor.state, &ring.registry);
    ring.producer.try_reserve(data.len())?;
    let reservation = ring.producer.reservation.unwrap();
    ring.registry.memory.fill(&reservation, data);
    ring.producer.advance(data.len())?;
    ring.producer.cursor.state.publish(&mut ring.registry.memory.header);
    Ok(())
}

/// Takes `len` bytes as one local consumer.
fn take(
    consumer: &mut local::consumer::Consumer,
    registry: &mut ReaderRegistry,
    len: usize,
) -> Result<Vec<u8>, Error> {
    consumer.state.observe_header(&registry.memory.header);
    let position = consumer.position();
    let reservation = consumer.try_reserve_at(position, len)?;
    let bytes = registry.memory.view(&reservation)[..len].to_vec();
    consumer.advance_to(position.wrapping_add(len as u64))?;
    consumer.state.release(&mut registry.memory.header);
    Ok(bytes)
}

#[test]
fn every_reader_receives_what_was_published() {
    let mut ring = local::create(1024).unwrap();
    let mut first = ring.consumer.cursor;
    let mut second = first.try_clone(Some(&mut ring.registry)).unwrap();

    publish(&mut ring, b"ping").unwrap();
    assert_eq!(take(&mut first, &mut ring.registry, 4).unwrap(), b"ping");
    assert_eq!(
        take(&mut first, &mut ring.registry, 1).unwrap_err().kind(),
        ErrorKind::WouldBlock
    );
    assert_eq!(take(&mut second, &mut ring.registry, 2).unwrap(), b"pi");
    assert_eq!(take(&mut second, &mut ring.registry, 2).unwrap(), b"ng");
}

#[test]
fn bytes_are_contiguous_across_the_end_of_the_payload() {
    let mut ring = local::create(1).unwrap();
    let capacity = ring.producer.capacity();
    assert_eq!(capacity, minimum_capacity());
    let mut consumer = ring.consumer.cursor;
    publish(&mut ring, &vec![1; capacity - 2]).unwrap();
    take(&mut consumer, &mut ring.registry, capacity - 2).unwrap();
    publish(&mut ring, b"wrapped").unwrap();
    assert_eq!(take(&mut consumer, &mut ring.registry, 7).unwrap(), b"wrapped");
    assert_eq!(ring.registry.memory.payload[0], b'a');
}

#[test]
fn positions_may_wrap_mid_stream() {
    let mut ring = local::create(1).unwrap();
    let start = u64::MAX - 1;
    ring.registry.memory.header.write_position = start;
    ring.registry.memory.header.read_positions[0] = start;
    ring.producer.cursor = local::producer::Producer::new(&ring.registry);
    let guard = ring.consumer.cursor.guard;
    let mut consumer = local::consumer::Consumer::new(&ring.registry, 0, guard);
    publish(&mut ring, b"around").unwrap();
    assert_eq!(ring.producer.cursor.position(), 4);
    assert_eq!(take(&mut consumer, &mut ring.registry, 6).unwrap(), b"around");
    assert_eq!(consumer.position(), 4);
}

#[test]
fn the_slowest_reader_holds_the_producer_back() {
    let mut ring = local::create(1).unwrap();
    let capacity = ring.producer.capacity();
    let mut fast = ring.consumer.cursor;
    let mut slow = fast.try_fork(Some(&mut ring.registry)).unwrap();
    publish(&mut ring, &vec![7; capacity]).unwrap();
    take(&mut fast, &mut ring.registry, capacity).unwrap();
    assert_eq!(
        publish(&mut ring, b"x").unwrap_err().kind(),
        ErrorKind::WouldBlock
    );
    take(&mut slow, &mut ring.registry, 3).unwrap();
    assert_eq!(ring.producer.cursor.state.slowest_reader(), Some(1));
    observe(&mut ring.producer.cursor.state, &ring.registry);
    ring.producer.try_reserve(1).unwrap();
    assert_eq!(ring.producer.reservation.unwrap().len, 3);
    assert!(slow.guard.release(Some(&mut ring.registry)));
    observe(&mut ring.producer.cursor.state, &ring.registry);
    ring.producer.try_reserve(1).unwrap();
    assert_eq!(ring.producer.reservation.unwrap().len, capacity);
}

#[test]
fn reservations_outlive_advances_up_to_their_start() {
    let mut ring = local::create(1).unwrap();
    let mut consumer = ring.consumer.cursor;
    publish(&mut ring, b"abcdef").unwrap();
    consumer.state.observe_header(&ring.registry.memory.header);
    let ahead = consumer.try_reserve_at(3, 2).unwrap();
    consumer.advance_to(3).unwrap();
    consumer.state.release(&mut ring.registry.memory.header);
    let again = consumer.try_reserve_at(3, 2).unwrap();
    assert_eq!((again.ptr, again.len), (ahead.ptr, ahead.len));
    let capacity = ring.producer.capacity();
    publish(&mut ring, &vec![0; capacity - 3]).unwrap();
    assert_eq!(ring.registry.memory.view(&ahead), b"def");
}

#[test]
fn local_producers_report_that_their_last_reader_is_gone() {
    let mut ring = local::create(1).unwrap();
    let guard = ring.consumer.cursor.guard;
    assert!(guard.release(Some(&mut ring.registry)));
    assert!(!guard.release(Some(&mut ring.registry)));
    assert!(!guard.release(None));
    assert_eq!(publish(&mut ring, b"x").unwrap_err(), Error::PeerDisconnected);
    assert_eq!(
        publish(&mut ring, b"x").unwrap_err().kind(),
        ErrorKind::BrokenPipe
    );
}

#[test]
fn registered_producers_stay_writable_without_readers() {
    let mut ring = ipc::registered::RegisteredRing::create(1).unwrap();
    let mut producer = ipc::producer::Producer::registered(&ring);
    let capacity = producer.capacity();
    assert_eq!(producer.try_reserve_at(0, capacity).unwrap().len, capacity);
    producer.advance_to(100).unwrap();
    producer.state.publish(&mut ring.readers.memory.header);
    assert_eq!(producer.try_reserve_at(100, capacity).unwrap().len, capacity);

    let mut claim = ring.claim_reader().unwrap();
    claim.activate(&mut ring.readers);
    let mut consumer = ipc::consumer::Consumer::from_attachment(
        claim.slot(),
        capacity,
        &ring.readers.memory.header,
    )
    .unwrap();
    assert_eq!(consumer.position(), 100);
    assert_eq!(
        consumer.try_reserve_at(100, 1).unwrap_err().kind(),
        ErrorKind::WouldBlock
    );

    observe(&mut producer.state, &ring.readers);
    let reservation = producer.try_reserve_at(100, 4).unwrap();
    ring.readers.memory.fill(&reservation, b"ping");
    producer.advance_to(104).unwrap();
    producer.state.publish(&mut ring.readers.memory.header);
    consumer.state.observe_header(&ring.readers.memory.header);
    let received = consumer.try_reserve_at(100, 4).unwrap();
    assert_eq!(ring.readers.memory.view(&received), b"ping");
}

#[test]
fn clones_need_a_ring_and_a_slot() {
    let mut ring = local::create(1).unwrap();
    let consumer = ring.consumer.cursor;
    assert_eq!(consumer.try_clone(None).unwrap_err(), Error::PeerDisconnected);
    for slot in 1..64 {
        let clone = consumer.try_clone(Some(&mut ring.registry)).unwrap();
        assert_eq!(clone.state.slot, slot);
    }
    assert_eq!(
        consumer.try_fork(Some(&mut ring.registry)).unwrap_err().kind(),
        ErrorKind::ResourceBusy
    );
}

#[test]
fn forks_take_a_slot_of_their_own() {
    let mut ring = LocalRing::with_layout(&Layout::new(4096, 8192).unwrap());
    assert_eq!(ring.producer.capacity(), 8192);
    let source = ring.consumer.cursor;
    let fork = source.try_fork(Some(&mut ring.registry)).unwrap();
    assert_ne!(fork.state.slot, source.state.slot);
    assert_ne!(fork.guard.reader, source.guard.reader);
    assert_eq!(ring.registry.active_readers().bitmap, 0b11);
    let mut header = ring.registry.memory.header;
    let clone = source
        .try_clone_in(Some(&mut ring.registry.members), &mut header)
        .unwrap();
    assert_eq!(clone.state.slot, 2);
    assert_eq!(ring.registry.active_readers().bitmap, 0b111);
    assert_eq!(
        source.try_clone_in(None, &mut header).unwrap_err(),
        Error::PeerDisconnected
    );
    assert!(clone.guard.release(Some(&mut ring.registry)));
    assert_eq!(ring.registry.active_readers().bitmap, 0b11);
}

#[test]
fn forks_inherit_the_cursor_and_move_alone() {
    let mut ring = local::create(1).unwrap();
    let mut source = ring.consumer.cursor;
    publish(&mut ring, b"abcdef").unwrap();
    take(&mut source, &mut ring.registry, 2).unwrap();
    let mut fork = source.try_fork(Some(&mut ring.registry)).unwrap();
    assert_eq!(fork.position(), source.position());
    assert_eq!(take(&mut fork, &mut ring.registry, 4).unwrap(), b"cdef");
    assert_eq!(source.position(), 2);
    assert_eq!(take(&mut source, &mut ring.registry, 1).unwrap(), b"c");
}

#[test]
fn views_retain_one_reservation() {
    let mut ring = local::create(1).unwrap();
    assert_eq!(
        ring.producer.advance(1).unwrap_err(),
        Error::InvalidLength
    );
    ring.producer.try_reserve(4).unwrap();
    let retained = ring.producer.reservation.unwrap().len;
    assert_eq!(retained, ring.producer.capacity());
    assert_eq!(
        ring.producer.advance(retained + 1).unwrap_err(),
        Error::InvalidLength
    );
    assert!(ring.producer.reservation.is_some());
    ring.producer.advance(0).unwrap();
    assert!(ring.producer.reservation.is_some());
    ring.producer.advance(4).unwrap();
    assert!(ring.producer.reservation.is_none());
    assert_eq!(ring.producer.cursor.position(), 4);
}

#[test]
fn closed_channels_report_the_lost_peer() {
    let (producer, consumer) = notification::pair();
    producer.notify_data().unwrap();
    consumer.notify_space().unwrap();
    consumer.validate_open().unwrap();
    consumer.close();
    producer.close();
    assert_eq!(producer.notify_data().unwrap_err(), Error::PeerDisconnected);
    assert_eq!(consumer.notify_space().unwrap_err(), Error::PeerDisconnected);
    assert_eq!(producer.validate_open().unwrap_err(), Error::PeerDisconnected);
}

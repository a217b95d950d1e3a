use ipc_ring::cursor::{Cursor, CursorMut, Reservation, ReserveStep, TryFork};
use ipc_ring::error::ErrorKind;
use ipc_ring::ring::header::Header;
use ipc_ring::{ipc, local};

fn assert_copy_send_sync<T: Copy + Send + Sync>() {}
fn assert_cursor<T: Cursor>() {}
fn assert_cursor_mut<T: CursorMut>() {}
fn assert_try_fork<T: TryFork>() {}

#[test]
fn reservation_is_inert_copyable_thread_safe_metadata() {
    assert_copy_send_sync::<Reservation<&u8>>();
    let byte = 0_u8;
    let reservation = Reservation {
        position: 7,
        ptr: &byte,
        len: 1,
    };
    let copied = reservation;
    assert_eq!(copied.position, 7);
    assert_eq!(copied.ptr, &byte);
    assert_eq!(copied.len, 1);
}

#[test]
fn cursor_capabilities_match_their_ring_roles() {
    assert_cursor::<local::consumer::Consumer>();
    assert_cursor::<ipc::consumer::Consumer>();
    assert_try_fork::<local::consumer::Consumer>();
    assert_cursor_mut::<local::producer::Producer>();
    assert_cursor_mut::<ipc::producer::Producer>();
}

fn consumer(capacity: usize, read: u64, write: u64) -> ipc::consumer::Consumer {
    let mut header = Header::new(capacity);
    header.write_position = write;
    header.read_positions[3] = read;
    ipc::consumer::Consumer::from_attachment(3, capacity, &header).unwrap()
}

#[test]
fn reservations_hold_everything_available_from_their_position() {
    let mut consumer = consumer(4096, 100, 164);
    let reservation = consumer.try_reserve_at(100, 4).unwrap();
    assert_eq!((reservation.position, reservation.ptr, reservation.len), (100, 100, 64));
    let ahead = consumer.try_reserve_at(160, 4).unwrap();
    assert_eq!((ahead.position, ahead.ptr, ahead.len), (160, 160, 4));
    assert_eq!(consumer.position(), 100);
}

#[test]
fn unavailable_and_invalid_reservations_are_told_apart() {
    let mut consumer = consumer(4096, 100, 164);
    assert_eq!(
        consumer.try_reserve_at(100, 65).unwrap_err().kind(),
        ErrorKind::WouldBlock
    );
    assert_eq!(
        consumer.try_reserve_at(100, 4096).unwrap_err().kind(),
        ErrorKind::WouldBlock
    );
    assert_eq!(
        consumer.try_reserve_at(100, 4097).unwrap_err().kind(),
        ErrorKind::InvalidInput
    );
    assert_eq!(
        consumer.try_reserve_at(99, 1).unwrap_err().kind(),
        ErrorKind::InvalidInput
    );
    assert!(matches!(consumer.reserve_at(100, 65), Ok(ReserveStep::Wait)));
    assert!(matches!(
        consumer.reserve_at(100, 64),
        Ok(ReserveStep::Ready(Reservation { position: 100, ptr: 100, len: 64 }))
    ));
    assert_eq!(
        consumer.reserve_at(100, 5000).unwrap_err().kind(),
        ErrorKind::InvalidInput
    );
}

#[test]
fn advancing_stays_within_the_available_extent() {
    let mut consumer = consumer(4096, 100, 164);
    assert_eq!(
        consumer.advance_to(165).unwrap_err().kind(),
        ErrorKind::InvalidInput
    );
    assert_eq!(
        consumer.advance_to(99).unwrap_err().kind(),
        ErrorKind::InvalidInput
    );
    assert_eq!(consumer.position(), 100);
    consumer.advance_to(150).unwrap();
    assert_eq!(consumer.position(), 150);
    assert_eq!(consumer.try_reserve_at(150, 1).unwrap().len, 14);
}

#[test]
fn contradictory_positions_are_corrupt() {
    let mut consumer = consumer(4096, 0, 4097);
    let error = consumer.try_reserve_at(0, 1).unwrap_err();
    assert_eq!(error.kind(), ErrorKind::Other);
    assert_eq!(error.message(), "shared ring state is corrupt");
    assert_eq!(
        consumer.advance_to(1).unwrap_err().message(),
        "shared ring state is corrupt"
    );
}

#[test]
fn positions_wrap_without_moving_their_bytes() {
    let start = u64::MAX - 1;
    let mut consumer = consumer(4096, start, 2);
    let reservation = consumer.try_reserve_at(start, 4).unwrap();
    assert_eq!((reservation.ptr, reservation.len), (4094, 4));
    let after = consumer.try_reserve_at(0, 1).unwrap();
    assert_eq!((after.ptr, after.len), (0, 2));
    consumer.advance_to(1).unwrap();
    assert_eq!(consumer.position(), 1);
}

#[test]
fn attachment_slots_out_of_range_are_rejected() {
    let header = Header::new(4096);
    let error = ipc::consumer::Consumer::from_attachment(64, 4096, &header).unwrap_err();
    assert_eq!(error.kind(), ErrorKind::InvalidData);
    assert_eq!(
        error.message(),
        "invalid control protocol: reader slot is out of range"
    );
    assert!(ipc::consumer::Consumer::from_attachment(63, 4096, &header).is_ok());
}

use ipc_ring::error::{Error, ErrorKind};
use ipc_ring::mapping::section::SectionView;
use ipc_ring::platform::connection::{
    length_halves, object_name, os_name, retry_initialization_not_found, validate_created,
    validate_name, InitializationDeadline, Retry, INITIALIZATION_POLL_INTERVAL,
    INITIALIZATION_TIMEOUT,
};
use ipc_ring::platform::mapping::{
    attach, attach_section, capacity_for_minimum, declared_capacity, declared_section_capacity,
    layout_for_minimum_capacity,
    validate_shared_memory, wait_for_header_size, wait_for_version,
    windows_layout_for_minimum_capacity,
};
use ipc_ring::platform::notification::{
    futex_wait, os_wait, os_wake, WaitState, WakeFault, IDLE, WAITING,
};
use ipc_ring::platform::sys::windows_error;

/// Runs the attempts of an operation as the deadline decides, on a clock that only sleeping
/// moves.
fn retry<T>(
    deadline: InitializationDeadline,
    mut operation: impl FnMut() -> Result<T, Error>,
) -> Result<T, Error> {
    let mut now = 0;
    loop {
        match retry_initialization_not_found(deadline, now, operation()) {
            Retry::Return(result) => return result,
            Retry::Sleep(pause) => now += pause,
        }
    }
}

#[test]
fn partial_notification_creation_retries_not_found() {
    let deadline = InitializationDeadline::start(0);
    let mut attempts = 0;
    retry(deadline, || {
        attempts += 1;
        if attempts < 3 {
            Err(Error::Bare(ErrorKind::NotFound))
        } else {
            Ok(())
        }
    })
    .unwrap();
    assert_eq!(attempts, 3);
}

#[test]
fn notification_errors_other_than_not_found_are_immediate() {
    let deadline = InitializationDeadline::start(0);
    let mut attempts = 0;
    let error = retry(deadline, || {
        attempts += 1;
        Err::<(), _>(Error::Bare(ErrorKind::PermissionDenied))
    })
    .unwrap_err();
    assert_eq!(error.kind(), ErrorKind::PermissionDenied);
    assert_eq!(attempts, 1);
}

#[test]
fn missing_components_are_given_up_at_the_deadline() {
    let deadline = InitializationDeadline::start(0);
    let mut attempts = 0;
    let error = retry(deadline, || {
        attempts += 1;
        Err::<(), _>(Error::Bare(ErrorKind::NotFound))
    })
    .unwrap_err();
    assert_eq!(error.kind(), ErrorKind::TimedOut);
    assert_eq!(
        attempts as u128,
        INITIALIZATION_TIMEOUT / INITIALIZATION_POLL_INTERVAL + 1
    );
}

#[test]
fn the_last_pause_ends_at_the_deadline() {
    let deadline = InitializationDeadline::start(50);
    assert_eq!(deadline.wait(50), Ok(1_000_000));
    assert_eq!(deadline.wait(100_000_049), Ok(1));
    assert_eq!(
        deadline.wait(100_000_050).unwrap_err(),
        Error::InitializationTimedOut
    );
}

#[test]
fn capacity_rounding_uses_the_next_valid_power_of_two() {
    assert!(capacity_for_minimum(0, 4096).is_err());
    assert_eq!(capacity_for_minimum(1, 4096).unwrap(), 4096);
    assert_eq!(capacity_for_minimum(4096, 4096).unwrap(), 4096);
    assert_eq!(capacity_for_minimum(4097, 4096).unwrap(), 8192);
    assert!(capacity_for_minimum(1, 6144).is_err());
}

#[test]
fn dropping_registration_clears_wait_state() {
    let mut state = WaitState { word: IDLE };

    state.register();
    assert_eq!(state.word, WAITING);

    state.clear();
    assert_eq!(state.word, IDLE);
}

#[test]
fn only_a_registered_waiter_is_woken() {
    let mut state = WaitState { word: IDLE };
    assert!(!state.notify());
    state.register();
    assert!(state.notify());
    assert_eq!(state.word, IDLE);
    assert!(!state.notify());
}

#[test]
fn spurious_wakeups_are_no_failures() {
    assert_eq!(futex_wait(Ok(())), Ok(()));
    assert_eq!(futex_wait(Err(WakeFault::Changed)), Ok(()));
    assert_eq!(futex_wait(Err(WakeFault::Interrupted)), Ok(()));
    assert_eq!(futex_wait(Err(WakeFault::Fault)), Err(WakeFault::Fault));
    assert_eq!(os_wait(0, WakeFault::Other(1)), Ok(()));
    assert_eq!(os_wait(-1, WakeFault::Fault), Ok(()));
    assert_eq!(os_wait(-1, WakeFault::NoWaiter), Err(WakeFault::NoWaiter));
    assert_eq!(os_wake(-1, WakeFault::NoWaiter), Ok(()));
    assert_eq!(os_wake(-1, WakeFault::Other(9)), Err(WakeFault::Other(9)));
}

#[test]
fn names_are_short_and_plain() {
    for name in ["a", "A-z_0.9", "abcdefghijklmnopqrst"] {
        validate_name(name).unwrap();
    }
    for name in ["", "abcdefghijklmnopqrstu", "a b", "a/b", "é", "a\0"] {
        assert_eq!(validate_name(name).unwrap_err(), Error::InvalidName);
    }
    assert_eq!(os_name("demo"), "/ipc-ring-demo");
    assert_eq!(object_name("demo", "data"), "Local\\ipc-ring-demo-data");
    validate_created(false).unwrap();
    assert_eq!(
        validate_created(true).unwrap_err().kind(),
        ErrorKind::AlreadyExists
    );
    assert_eq!(length_halves(0x1234_5678_9abc_def0), (0x1234_5678, 0x9abc_def0));
}

#[test]
fn named_rings_are_validated_exactly() {
    assert_eq!(attach(1, 8192, 12288, 4096), Ok(8192));
    assert_eq!(declared_capacity(1, 8192, 4096), Ok(8192));
    assert!(declared_capacity(1, 2048, 4096).is_err());
    assert_eq!(declared_section_capacity(1, 65536, 4096, 65536), Ok(65536));
    assert_eq!(
        declared_section_capacity(0, 65536, 4096, 65536).unwrap_err(),
        Error::UnsupportedVersion(0)
    );
    assert_eq!(
        attach(1, 8192, 12289, 4096).unwrap_err(),
        Error::InvalidLayout("shared-memory object length does not match capacity")
    );
    assert_eq!(attach(3, 8192, 12288, 4096).unwrap_err(), Error::UnsupportedVersion(3));
    assert!(validate_shared_memory(-1, 4096, 8192).is_err());
    assert_eq!(layout_for_minimum_capacity(5000, 4096).unwrap().shared_memory_len, 12288);
    assert_eq!(
        layout_for_minimum_capacity(0, 4096).unwrap_err(),
        Error::InvalidInput("minimum capacity must be greater than zero")
    );
    assert_eq!(
        windows_layout_for_minimum_capacity(5000, 4096, 65536).unwrap().capacity,
        65536
    );
    let whole = SectionView {
        view: 16,
        answered: true,
        base: 16,
        allocation: 16,
        len: 69632,
    };
    assert_eq!(attach_section(1, 65536, whole, 4096, 65536), Ok(65536));
    assert!(
        attach_section(1, 65536, SectionView { answered: false, ..whole }, 4096, 65536).is_err()
    );
}

#[test]
fn initialization_is_waited_for() {
    let deadline = InitializationDeadline::start(0);
    assert!(matches!(wait_for_version(4, deadline, 0), Retry::Return(Ok(4))));
    assert!(matches!(wait_for_version(0, deadline, 0), Retry::Sleep(1_000_000)));
    assert!(matches!(
        wait_for_version(0, deadline, INITIALIZATION_TIMEOUT),
        Retry::Return(Err(Error::InitializationTimedOut))
    ));
    assert!(matches!(
        wait_for_header_size(4096, 4096, deadline, 0),
        Retry::Return(Ok(()))
    ));
    assert!(matches!(
        wait_for_header_size(4095, 4096, deadline, 0),
        Retry::Sleep(1_000_000)
    ));
    assert!(matches!(
        wait_for_header_size(-4, 4096, deadline, 0),
        Retry::Return(Err(Error::InvalidLayout("shared-memory object has a negative length")))
    ));
}

#[test]
fn system_errors_are_found_in_result_codes() {
    assert_eq!(windows_error(0x8007_0005), Some(5));
    assert_eq!(windows_error(0x8007_ffff), Some(0xffff));
    assert_eq!(windows_error(0x8000_0005), None);
    assert_eq!(windows_error(5), None);
}

use ipc_ring::error::{
    corrupt_state, incompatible_protocol, initialization_timed_out, invalid_input, invalid_layout,
    invalid_length, invalid_name, peer_disconnected, platform_invariant, port_not_found, protocol,
    reader_capacity_exhausted, unsupported_version, would_block, Error, ErrorKind,
};

fn check(error: Error, kind: ErrorKind, message: &str) {
    assert_eq!(error.kind(), kind);
    assert_eq!(error.message(), message);
}

#[test]
fn every_failure_has_its_category_and_message() {
    check(
        reader_capacity_exhausted(),
        ErrorKind::ResourceBusy,
        "the ring's reader capacity is exhausted",
    );
    check(
        port_not_found(),
        ErrorKind::NotFound,
        "the requested ring port is not registered",
    );
    check(
        incompatible_protocol(),
        ErrorKind::Other,
        "server uses an unsupported control protocol version",
    );
    check(
        unsupported_version(0),
        ErrorKind::Other,
        "unsupported IPC ring ABI version 0",
    );
    check(
        unsupported_version(u64::MAX),
        ErrorKind::Other,
        "unsupported IPC ring ABI version 18446744073709551615",
    );
    check(
        unsupported_version(9_073),
        ErrorKind::Other,
        "unsupported IPC ring ABI version 9073",
    );
    check(
        invalid_layout("x"),
        ErrorKind::InvalidData,
        "invalid IPC ring layout: x",
    );
    check(corrupt_state(), ErrorKind::Other, "shared ring state is corrupt");
    check(
        invalid_length(),
        ErrorKind::InvalidInput,
        "length exceeds the ring capacity or reservation",
    );
    check(invalid_input("y"), ErrorKind::InvalidInput, "invalid input: y");
    check(
        platform_invariant("z"),
        ErrorKind::Other,
        "platform mapping invariant failed: z",
    );
    check(
        protocol("w"),
        ErrorKind::InvalidData,
        "invalid control protocol: w",
    );
    check(
        peer_disconnected(),
        ErrorKind::BrokenPipe,
        "ring peer disconnected",
    );
    check(
        would_block(),
        ErrorKind::WouldBlock,
        "requested reservation is unavailable",
    );
    check(invalid_name(), ErrorKind::InvalidInput, "invalid ring name");
    check(
        initialization_timed_out(),
        ErrorKind::TimedOut,
        "ring initialization timed out",
    );
    check(
        Error::Bare(ErrorKind::AlreadyExists),
        ErrorKind::AlreadyExists,
        "entity already exists",
    );
}

#[test]
fn the_system_words_its_own_failures() {
    let error = Error::Os { kind: ErrorKind::PermissionDenied, code: 13 };
    assert_eq!(error.kind(), ErrorKind::PermissionDenied);
    assert_eq!(error.message(), std::io::Error::from_raw_os_error(13).to_string());
    assert!(error.message().ends_with("(os error 13)"));
    let other = Error::Os { kind: ErrorKind::NotFound, code: 2 };
    assert_ne!(other.message(), error.message());
}

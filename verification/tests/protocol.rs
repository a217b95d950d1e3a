use ipc_ring::error::{Error, ErrorKind};
use ipc_ring::handshake::protocol::{
    encode_request, encode_status, receive_attached, receive_ready, receive_request,
    receive_status, response, validate_port, validate_response, Rejection, RequestStep, Status,
    StatusStep, ATTACHED, READY, VERSION,
};

#[test]
fn unknown_status_and_version_are_rejected() {
    assert_eq!(
        validate_response([VERSION, u8::MAX]).unwrap_err().kind(),
        ErrorKind::InvalidData
    );
    assert_eq!(
        validate_response([VERSION + 1, Status::Accepted.code()])
            .unwrap_err()
            .message(),
        "server uses an unsupported control protocol version"
    );
}

#[test]
fn port_lengths_use_utf8_bytes_and_cover_protocol_boundaries() {
    validate_port("a").unwrap();
    validate_port(&"x".repeat(255)).unwrap();
    validate_port(&("é".repeat(127) + "a")).unwrap();

    assert_eq!(
        validate_port("").unwrap_err().kind(),
        ErrorKind::InvalidInput
    );
    assert_eq!(
        validate_port(&"x".repeat(256)).unwrap_err().kind(),
        ErrorKind::InvalidInput
    );
    assert_eq!(
        validate_port(&"é".repeat(128)).unwrap_err().kind(),
        ErrorKind::InvalidInput
    );
}

#[test]
fn attachment_acknowledgements_are_checked() {
    receive_attached([0]).unwrap();
    receive_attached(ATTACHED).unwrap();
    assert_eq!(
        receive_attached([u8::MAX]).unwrap_err().kind(),
        ErrorKind::InvalidData
    );
}

#[test]
fn readiness_is_checked_to_the_last_byte() {
    assert_eq!(&READY, b"IPCRDY01");
    receive_ready(READY).unwrap();
    for index in 0..8 {
        let mut other = READY;
        other[index] ^= 1;
        assert_eq!(
            receive_ready(other).unwrap_err(),
            Error::Protocol("client did not confirm mapping attachment")
        );
    }
}

#[test]
fn status_codes_are_stable() {
    assert_eq!(response(Status::Accepted), [1, 0]);
    assert_eq!(response(Status::Busy), [1, 1]);
    assert_eq!(response(Status::NotFound), [1, 2]);
    assert_eq!(response(Status::Invalid), [1, 3]);
    assert_eq!(response(Status::Incompatible), [1, 4]);
}

#[test]
fn requests_carry_their_port() {
    let request = encode_request("télé").unwrap();
    assert_eq!(request, [&[1_u8, 6][..], "télé".as_bytes()].concat());
    assert!(matches!(
        receive_request(&request),
        Ok(RequestStep::Port(port)) if port == "télé"
    ));
    assert_eq!(
        encode_request("").unwrap_err(),
        Error::InvalidInput("port must not be empty")
    );
    assert_eq!(
        encode_request(&"x".repeat(256)).unwrap_err(),
        Error::InvalidInput("port must be at most 255 UTF-8 bytes")
    );
}

#[test]
fn incomplete_requests_are_read_on() {
    let request = encode_request("abc").unwrap();
    assert!(matches!(receive_request(&request[..0]), Ok(RequestStep::Read(2))));
    assert!(matches!(receive_request(&request[..1]), Ok(RequestStep::Read(1))));
    assert!(matches!(receive_request(&request[..2]), Ok(RequestStep::Read(3))));
    assert!(matches!(receive_request(&request[..4]), Ok(RequestStep::Read(1))));
}

#[test]
fn refused_requests_are_answered_with_their_reason() {
    assert_eq!(
        receive_request(&[2, 0]).unwrap_err(),
        Rejection { status: Status::Incompatible, error: Error::IncompatibleProtocol }
    );
    assert_eq!(
        receive_request(&[1, 0]).unwrap_err(),
        Rejection {
            status: Status::Invalid,
            error: Error::Protocol("port must not be empty"),
        }
    );
    assert_eq!(
        receive_request(&[1, 2, 0xc3, 0x28]).unwrap_err(),
        Rejection {
            status: Status::Invalid,
            error: Error::Protocol("port is not valid UTF-8"),
        }
    );
}

#[test]
fn answers_carry_the_slot_or_the_refusal() {
    let accepted = encode_status(Status::Accepted, Some(9));
    assert_eq!(accepted, vec![1, 0, 9]);
    assert_eq!(receive_status(&accepted).unwrap(), StatusStep::Slot(9));
    assert_eq!(receive_status(&accepted[..2]).unwrap(), StatusStep::Read(1));
    assert_eq!(receive_status(&accepted[..1]).unwrap(), StatusStep::Read(1));
    assert_eq!(receive_status(&accepted[..0]).unwrap(), StatusStep::Read(2));

    let refusals = [
        (Status::Busy, Error::ReaderCapacityExhausted),
        (Status::NotFound, Error::PortNotFound),
        (Status::Invalid, Error::Protocol("server rejected the port")),
        (Status::Incompatible, Error::IncompatibleProtocol),
    ];
    for (status, error) in refusals {
        let answer = encode_status(status, None);
        assert_eq!(answer.len(), 2);
        assert_eq!(receive_status(&answer).unwrap_err(), error);
    }
    assert_eq!(
        receive_status(&[1, 77]).unwrap_err(),
        Error::Protocol("unknown routing status")
    );
}

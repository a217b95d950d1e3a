use ipc_ring::error::{Error, ErrorKind};
use ipc_ring::ipc::mapping_handle::{
    decode_handle, encode_handle, validate_received_descriptor, validate_sent,
};
use ipc_ring::mapping::payload::{
    validate_fixed, validate_named_header, validate_placed, MapRequest, MapStep, PayloadMapping,
    Region,
};
use ipc_ring::mapping::placeholder::{
    Holdings, PlaceholderMapping, PlaceholderRequest, PlaceholderStep,
};
use ipc_ring::mapping::section::{self, SectionView};
use ipc_ring::mapping::{
    attach, capacity_for_granularity, capacity_for_minimum, minimum_capacity, read_version,
    shared_memory_len, validate_capacity, validate_header_len, validate_shared_memory_len, Layout,
};
use ipc_ring::ring::ABI_VERSION;

#[test]
fn mod_capacity_rounding_uses_the_next_valid_power_of_two() {
    let granularity = minimum_capacity();
    let largest_double_mappable_power = 1_usize << (usize::BITS - 2);
    let cases = [
        (0, Some(granularity)),
        (1, Some(granularity)),
        (granularity - 1, Some(granularity)),
        (granularity, Some(granularity)),
        (granularity + 1, Some(granularity * 2)),
        (granularity * 2, Some(granularity * 2)),
        (granularity * 2 + 1, Some(granularity * 4)),
        (
            largest_double_mappable_power,
            Some(largest_double_mappable_power),
        ),
        (largest_double_mappable_power + 1, None),
        (usize::MAX, None),
    ];
    for (minimum, expected) in cases {
        assert_eq!(capacity_for_minimum(minimum).ok(), expected);
    }
}

#[test]
fn capacities_that_cannot_be_mapped_twice_are_refused() {
    let half = 1_usize << (usize::BITS - 1);
    assert_eq!(
        capacity_for_granularity(half, 4096).unwrap_err(),
        Error::InvalidInput("double-mapped capacity overflows address space")
    );
    assert_eq!(
        capacity_for_granularity(half + 1, 4096).unwrap_err(),
        Error::InvalidInput("minimum capacity is too large")
    );
    assert_eq!(capacity_for_granularity(5000, 65536), Ok(65536));
    assert_eq!(capacity_for_granularity(70000, 65536), Ok(131072));
}

#[test]
fn attachment_accepts_trailing_shared_memory() {
    let page = minimum_capacity();
    let created = Layout::for_minimum_capacity(minimum_capacity()).unwrap();
    let expanded = created.shared_memory_len + page as u64;
    let attached = attach(ABI_VERSION, created.capacity as u64, expanded, page).unwrap();
    assert_eq!(attached.capacity, created.capacity);
    assert_eq!(attached, created);
}

#[test]
fn malformed_objects_are_not_attached() {
    let len = 4096 + 8192;
    assert_eq!(
        attach(1, 8192, 4095, 4096).unwrap_err(),
        Error::InvalidLayout("shared-memory object is shorter than its header")
    );
    assert_eq!(
        attach(0, 8192, len, 4096).unwrap_err(),
        Error::InvalidLayout("header initialization is incomplete")
    );
    assert_eq!(attach(2, 8192, len, 4096).unwrap_err(), Error::UnsupportedVersion(2));
    assert_eq!(
        attach(1, 8191, len, 4096).unwrap_err(),
        Error::InvalidLayout("capacity must be a nonzero power of two")
    );
    assert_eq!(
        attach(1, 2048, len, 4096).unwrap_err(),
        Error::InvalidLayout("capacity must be page aligned")
    );
    assert_eq!(
        attach(1, 8192, len - 1, 4096).unwrap_err(),
        Error::InvalidLayout("shared-memory object is shorter than its declared capacity")
    );
    assert_eq!(
        attach(1, 8192, len, 4096).unwrap(),
        Layout { page_size: 4096, capacity: 8192, shared_memory_len: 12288 }
    );
}

#[test]
fn capacities_are_validated_against_the_page() {
    assert_eq!(
        validate_capacity(0, 4096).unwrap_err(),
        Error::InvalidLayout("capacity must be a nonzero power of two")
    );
    assert_eq!(
        validate_capacity(4096, 0).unwrap_err(),
        Error::InvalidLayout("capacity must be page aligned")
    );
    validate_capacity(4096, 4096).unwrap();
    validate_capacity(1 << 63, 4096).unwrap();
    let layout = Layout::new(4096, 4096).unwrap();
    assert_eq!(layout.shared_memory_len, 8192);
    validate_shared_memory_len(8192, &layout).unwrap();
    assert!(validate_shared_memory_len(8191, &layout).is_err());
    assert!(validate_header_len(4096, 4096).is_ok());
    assert!(validate_header_len(4095, 4096).is_err());
    assert_eq!(read_version(7), Ok(7));
    assert_eq!(shared_memory_len(12), Ok(12));
    assert_eq!(
        shared_memory_len(-1).unwrap_err(),
        Error::InvalidLayout("shared-memory object has a negative length")
    );
    assert_eq!(
        Layout::for_page(1, 6144).unwrap_err(),
        Error::PlatformInvariant("mapping granularity must be a nonzero power of two")
    );
    assert_eq!(
        Layout::for_page(1, 512).unwrap_err(),
        Error::PlatformInvariant("header exceeds one page")
    );
}

fn continued(step: MapStep) -> PayloadMapping {
    match step {
        MapStep::Continue(mapping) => mapping,
        other => panic!("unexpected {other:?}"),
    }
}

#[test]
fn payloads_are_mapped_twice_in_a_row() {
    let layout = Layout::new(4096, 8192).unwrap();
    let mapping = PayloadMapping::new(&layout).unwrap();
    assert_eq!(mapping.request(), MapRequest::Reserve { len: 16384 });
    let first = continued(mapping.step(Ok(0x10_0000)));
    assert_eq!(
        first.request(),
        MapRequest::Share { address: 0x10_0000, len: 8192, offset: 4096 }
    );
    let second = continued(first.step(Ok(0x10_0000)));
    assert_eq!(
        second.request(),
        MapRequest::Share { address: 0x10_2000, len: 8192, offset: 4096 }
    );
    assert_eq!(
        second.step(Ok(0x10_2000)),
        MapStep::Mapped(Region { address: 0x10_0000, len: 16384 })
    );
}

#[test]
fn failed_mappings_give_everything_back() {
    let failure = Error::Os { kind: ErrorKind::Other, code: 12 };
    let layout = Layout::new(4096, 8192).unwrap();
    let mapping = PayloadMapping::new(&layout).unwrap();
    let region = Region { address: 0x10_0000, len: 16384 };
    assert_eq!(
        mapping.step(Err(failure)),
        MapStep::Failed { stray: None, reservation: None, error: failure }
    );
    assert_eq!(
        mapping.step(Ok(0)),
        MapStep::Failed {
            stray: None,
            reservation: Some(Region { address: 0, len: 16384 }),
            error: Error::PlatformInvariant("null mapping"),
        }
    );
    let first = continued(mapping.step(Ok(0x10_0000)));
    assert_eq!(
        first.step(Err(failure)),
        MapStep::Failed { stray: None, reservation: Some(region), error: failure }
    );
    let second = continued(first.step(Ok(0x10_0000)));
    assert_eq!(
        second.step(Ok(0x99_0000)),
        MapStep::Failed {
            stray: Some(Region { address: 0x99_0000, len: 8192 }),
            reservation: Some(region),
            error: Error::PlatformInvariant("MAP_FIXED returned another address"),
        }
    );
    validate_fixed(8, 8).unwrap();
    assert!(validate_fixed(8, 9).is_err());
    let huge = Layout { page_size: 4096, capacity: usize::MAX, shared_memory_len: 0 };
    assert_eq!(
        PayloadMapping::new(&huge).unwrap_err(),
        Error::InvalidLayout("double mapping length overflows")
    );
}

#[test]
fn named_rings_give_less_back() {
    let failed = |stray, reservation, reason| MapStep::Failed {
        stray,
        reservation,
        error: Error::PlatformInvariant(reason),
    };
    let layout = Layout::new(4096, 8192).unwrap();
    let mapping = PayloadMapping::named(&layout).unwrap();
    let region = Region { address: 0x10_0000, len: 16384 };
    let first = continued(mapping.step(Ok(0x10_0000)));
    assert_eq!(
        first.step(Ok(0x99_0000)),
        failed(None, Some(region), "MAP_FIXED returned another address")
    );
    let second = continued(first.step(Ok(0x10_0000)));
    assert_eq!(second.step(Ok(0x10_2000)), MapStep::Mapped(region));

    let first = continued(mapping.step(Ok(0)));
    let second = continued(first.step(Ok(0)));
    assert_eq!(second.step(Ok(8192)), failed(None, None, "null payload mapping"));
    let huge = Layout { page_size: 4096, capacity: usize::MAX, shared_memory_len: 0 };
    assert_eq!(
        PayloadMapping::named(&huge).unwrap_err(),
        Error::PlatformInvariant("double mapping overflow")
    );
    assert_eq!(validate_placed(0).unwrap_err(), Error::PlatformInvariant("null mapping"));
    assert_eq!(
        validate_named_header(0).unwrap_err(),
        Error::PlatformInvariant("null header mapping")
    );
    validate_named_header(4096).unwrap();
    assert_eq!(Layout::of_object(4096, 8192).unwrap(), layout);
    assert!(Layout::of_object(1, usize::MAX).is_err());
}

#[test]
fn placeholders_are_split_and_replaced() {
    let layout = Layout { page_size: 4096, capacity: 65536, shared_memory_len: 69632 };
    let start = PlaceholderMapping::new(&layout).unwrap();
    assert_eq!(start.request(), PlaceholderRequest::Reserve { len: 131072 });
    let next = |step: PlaceholderStep| match step {
        PlaceholderStep::Continue(mapping) => mapping,
        other => panic!("unexpected {other:?}"),
    };
    let failure = Error::Os { kind: ErrorKind::Other, code: 8 };
    let failed = |mapping: &PlaceholderMapping| match mapping.step(Err(failure)) {
        PlaceholderStep::Failed { held, error } => {
            assert_eq!(error, failure);
            held
        }
        other => panic!("unexpected {other:?}"),
    };
    let region = |address: usize, len: usize| Some(Region { address, len });
    assert_eq!(
        failed(&start),
        Holdings { view: None, leading: None, trailing: None }
    );

    let splitting = next(start.step(Ok(0x50_0000)));
    assert_eq!(
        splitting.request(),
        PlaceholderRequest::Split { address: 0x50_0000, len: 65536 }
    );
    assert_eq!(
        failed(&splitting),
        Holdings { view: None, leading: region(0x50_0000, 131072), trailing: None }
    );

    let first = next(splitting.step(Ok(0x50_0000)));
    assert_eq!(
        first.request(),
        PlaceholderRequest::Replace { address: 0x50_0000, len: 65536, offset: 4096 }
    );
    assert_eq!(
        failed(&first),
        Holdings {
            view: None,
            leading: region(0x50_0000, 65536),
            trailing: region(0x51_0000, 65536),
        }
    );

    let second = next(first.step(Ok(0x50_0000)));
    assert_eq!(
        second.request(),
        PlaceholderRequest::Replace { address: 0x51_0000, len: 65536, offset: 4096 }
    );
    assert_eq!(
        failed(&second),
        Holdings {
            view: region(0x50_0000, 65536),
            leading: None,
            trailing: region(0x51_0000, 65536),
        }
    );
    assert_eq!(
        second.step(Ok(0x51_0000)),
        PlaceholderStep::Mapped { address: 0x50_0000 }
    );
    let huge = Layout { page_size: 4096, capacity: usize::MAX, shared_memory_len: 0 };
    assert_eq!(
        PlaceholderMapping::new(&huge).unwrap_err(),
        Error::PlatformInvariant("double mapping overflow")
    );
}

#[test]
fn transfers_must_hold_exactly_one_descriptor() {
    assert_eq!(validate_received_descriptor(1, false, vec![7]), Ok(7));
    assert_eq!(
        validate_received_descriptor(1, false, vec![7, 8]).unwrap_err().kind(),
        ErrorKind::InvalidData
    );
    assert_eq!(
        validate_received_descriptor(1, false, Vec::<i32>::new()).unwrap_err().message(),
        "mapping transfer must contain exactly one descriptor"
    );
    assert_eq!(
        validate_received_descriptor(1, true, vec![7]).unwrap_err().kind(),
        ErrorKind::InvalidData
    );
    assert_eq!(
        validate_received_descriptor(0, false, vec![7]).unwrap_err().kind(),
        ErrorKind::UnexpectedEof
    );
    assert_eq!(validate_sent(0).unwrap_err().kind(), ErrorKind::WriteZero);
    validate_sent(1).unwrap();
}

#[test]
fn handles_arrive_as_they_were_sent() {
    let bytes = encode_handle(0x0102_0304_0506_0708);
    assert_eq!(bytes, vec![8, 7, 6, 5, 4, 3, 2, 1]);
    assert_eq!(decode_handle(&bytes), Ok(0x0102_0304_0506_0708));
    for invalid in [0, u64::MAX] {
        let error = decode_handle(&encode_handle(invalid)).unwrap_err();
        assert_eq!(error.message(), "mapping transfer contains an invalid handle");
    }
}

#[test]
fn sections_must_match_their_capacity() {
    let whole = SectionView {
        view: 0x5000,
        answered: true,
        base: 0x5000,
        allocation: 0x5000,
        len: 4096 + 65536,
    };
    assert_eq!(section::attach(1, 65536, whole, 4096, 65536), Ok(65536));
    assert_eq!(section::read_declaration(1, 65536, 4096, 65536), Ok(65536));
    assert_eq!(
        section::read_declaration(2, 65536, 4096, 65536).unwrap_err(),
        Error::UnsupportedVersion(2)
    );
    assert_eq!(
        section::attach(1, 65536, SectionView { len: 65536, ..whole }, 4096, 65536).unwrap_err(),
        Error::InvalidLayout("shared-memory object length does not match capacity")
    );
    assert_eq!(
        section::attach(1, 32768, whole, 4096, 65536).unwrap_err(),
        Error::InvalidLayout("capacity must match allocation granularity")
    );
    assert_eq!(
        section::attach(0, 65536, whole, 4096, 65536).unwrap_err(),
        Error::InvalidLayout("header initialization is incomplete")
    );
    assert_eq!(
        section::layout_for_minimum_capacity(1, 4096, 65536).unwrap(),
        Layout { page_size: 4096, capacity: 65536, shared_memory_len: 69632 }
    );
}

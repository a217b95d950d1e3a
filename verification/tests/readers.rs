use ipc_ring::error::ErrorKind;
use ipc_ring::ipc::reader::{claim, rollback_claim, ReaderClaim};
use ipc_ring::mapping::memory::MappedMemory;
use ipc_ring::mapping::{minimum_capacity, Layout};
use ipc_ring::ring::reader::ReaderRegistry;
use ipc_ring::ring::MAX_READERS;

fn registry() -> ReaderRegistry {
    let layout = Layout::for_minimum_capacity(minimum_capacity()).unwrap();
    ReaderRegistry::new(MappedMemory::create(&layout))
}

#[test]
fn incomplete_claims_reserve_and_release_slots_without_changing_membership() {
    let mut registry = registry();
    let first = claim(&mut registry).unwrap();
    let second = claim(&mut registry).unwrap();
    assert_eq!(first.slot(), 0);
    assert_eq!(second.slot(), 1);
    assert_eq!(registry.active_readers().bitmap, 0);

    assert!(rollback_claim(first, &mut registry));
    assert_eq!(claim(&mut registry).unwrap().slot(), 0);
}

#[test]
fn active_claims_roll_back_when_installation_does_not_finish() {
    let mut registry = registry();
    let mut claimed = claim(&mut registry).unwrap();
    assert!(claimed.activate(&mut registry));
    assert_eq!(registry.active_readers().bitmap, 1);
    rollback_claim(claimed, &mut registry);
    assert_eq!(registry.active_readers().bitmap, 0);

    assert_eq!(claim(&mut registry).unwrap().slot(), 0);
}

#[test]
fn claims_reserve_every_slot_exactly_once() {
    let mut registry = registry();
    let claims = (0..MAX_READERS)
        .map(|_| claim(&mut registry).unwrap())
        .collect::<Vec<_>>();
    let slots = claims.iter().map(ReaderClaim::slot).collect::<Vec<_>>();
    assert_eq!(slots, (0..MAX_READERS as u8).collect::<Vec<_>>());
    assert_eq!(registry.reserved_slots(), u64::MAX);
    assert_eq!(
        claim(&mut registry).err().unwrap().kind(),
        ErrorKind::ResourceBusy
    );

    for claimed in claims {
        assert!(rollback_claim(claimed, &mut registry));
    }
    assert_eq!(registry.reserved_slots(), 0);
}

#[test]
fn membership_updates_do_not_lose_other_slots() {
    let mut registry = registry();
    let mut claims = (0..MAX_READERS)
        .map(|_| claim(&mut registry).unwrap())
        .collect::<Vec<_>>();
    for claimed in &mut claims {
        assert!(claimed.activate(&mut registry));
    }
    let active = registry.active_readers();
    assert_eq!(active.bitmap, u64::MAX);
    assert!(active.connections.iter().all(Option::is_some));

    let middle = claims.remove(31);
    rollback_claim(middle, &mut registry);
    let active = registry.active_readers();
    assert_eq!(active.bitmap, u64::MAX & !(1 << 31));
    assert!(active.connections[31].is_none());
    assert_eq!(registry.reserved_slots(), u64::MAX & !(1 << 31));

    for claimed in claims {
        rollback_claim(claimed, &mut registry);
    }
    let active = registry.active_readers();
    assert_eq!(active.bitmap, 0);
    assert!(active.connections.iter().all(Option::is_none));
    assert_eq!(registry.reserved_slots(), 0);
}

#[test]
fn stale_disconnect_cannot_disturb_a_reused_slot() {
    let mut registry = registry();
    let mut old_claim = claim(&mut registry).unwrap();
    let old_reader = old_claim.reader;
    old_claim.activate(&mut registry);
    registry.disconnect(&old_reader);

    let mut replacement = claim(&mut registry).unwrap();
    assert_eq!(replacement.slot(), 0);
    let replacement_reader = replacement.reader;
    replacement.activate(&mut registry);

    assert!(!rollback_claim(old_claim, &mut registry));
    registry.memory.header.data_waiters = 1;
    registry.memory.header.space_waiters = 1;
    assert!(!registry.disconnect(&old_reader));

    let active = registry.active_readers();
    assert_eq!(active.bitmap & 1, 1);
    assert!(active.connections[0]
        .as_ref()
        .is_some_and(|stored| *stored == replacement_reader));
    assert_eq!(registry.memory.header.data_waiters, 1);
    assert_eq!(registry.memory.header.space_waiters, 1);

    let remaining = (1..MAX_READERS)
        .map(|_| claim(&mut registry).unwrap())
        .collect::<Vec<_>>();
    assert_eq!(
        claim(&mut registry).err().unwrap().kind(),
        ErrorKind::ResourceBusy
    );
    for claimed in remaining {
        assert!(rollback_claim(claimed, &mut registry));
    }
    assert!(rollback_claim(replacement, &mut registry));
    assert_eq!(registry.memory.header.data_waiters, 0);
    assert_eq!(registry.memory.header.space_waiters, 0);
}

#[test]
fn a_stale_claim_cannot_activate() {
    let mut registry = registry();
    let mut claimed = claim(&mut registry).unwrap();
    let reader = claimed.reader;
    assert!(registry.disconnect(&reader));
    assert!(!claimed.activate(&mut registry));
    assert_eq!(registry.active_readers().bitmap, 0);
}

#[test]
fn activation_starts_at_the_producer() {
    let mut registry = registry();
    registry.memory.header.write_position = 77;
    let mut claimed = claim(&mut registry).unwrap();
    claimed.activate(&mut registry);
    assert_eq!(registry.memory.header.read_positions[0], 77);
    let reader = claimed.finish();
    assert_eq!(reader.slot(), 0);
    assert_eq!(registry.reserved_slots(), 1);
}

//! The layout of a named ring, and how another process's initialization of it is awaited.

use crate::error::{invalid_input, invalid_layout, platform_invariant, unsupported_version, Error};
use crate::mapping::section::{section_outcome, validate_section, SectionView};
use crate::mapping::{larger, Layout, HEADER_LEN};
use crate::platform::connection::{wait_outcome, InitializationDeadline, Retry};
use crate::power::{checked_next_power_of_two, is_power_of_two, next_power};
use crate::ring::position::largest_capacity;
use crate::ring::ABI_VERSION;
use vstd::arithmetic::power2::is_pow2;
use vstd::prelude::*;

verus! {

/// The capacity of a named ring that holds at least `minimum` bytes, where mappings come in
/// multiples of `granularity`.
pub open spec fn capacity_outcome(minimum: int, granularity: int) -> Result<usize, Error> {
    let capacity = next_power(larger(minimum, granularity) as nat);
    if minimum == 0 {
        Err(Error::InvalidInput("minimum capacity must be greater than zero"))
    } else if !is_pow2(granularity) {
        Err(Error::PlatformInvariant("mapping granularity must be a nonzero power of two"))
    } else if capacity > usize::MAX {
        Err(Error::InvalidInput("minimum capacity is too large"))
    } else if capacity > largest_capacity() {
        Err(Error::InvalidInput("capacity exceeds 2^63"))
    } else {
        Ok(capacity as usize)
    }
}

/// Rounds `minimum_capacity` up to the capacity of a named ring.
pub fn capacity_for_minimum(minimum_capacity: usize, granularity: usize) -> (capacity: Result<
    usize,
    Error,
>)
    ensures
        capacity == capacity_outcome(minimum_capacity as int, granularity as int),
{
    if minimum_capacity == 0 {
        return Err(invalid_input("minimum capacity must be greater than zero"));
    }
    if granularity == 0 || !is_power_of_two(granularity) {
        assert(!is_pow2(0)) by {
            reveal(is_pow2);
        }
        return Err(platform_invariant("mapping granularity must be a nonzero power of two"));
    }
    let least: usize = if minimum_capacity >= granularity {
        minimum_capacity
    } else {
        granularity
    };
    let capacity: usize = match checked_next_power_of_two(least) {
        Some(capacity) => capacity,
        None => return Err(invalid_input("minimum capacity is too large")),
    };
    if capacity as u128 > 0x8000_0000_0000_0000u128 {
        return Err(invalid_input("capacity exceeds 2^63"));
    }
    Ok(capacity)
}

/// What is wrong with the capacity of a named ring on a Unix system, if anything.
pub open spec fn capacity_fault(capacity: int, page: int) -> Option<Error> {
    if !is_pow2(capacity) {
        Some(Error::InvalidLayout("capacity must be a nonzero power of two"))
    } else if capacity < page || page == 0 || capacity % page != 0 {
        Some(Error::InvalidLayout("capacity must be page aligned"))
    } else if capacity > largest_capacity() {
        Some(Error::InvalidLayout("capacity exceeds 2^63"))
    } else if 2 * capacity > usize::MAX {
        Some(Error::InvalidLayout("double mapping length overflows"))
    } else if HEADER_LEN > page {
        Some(Error::PlatformInvariant("header exceeds one page"))
    } else {
        None
    }
}

/// Checks the capacity of a named ring on a Unix system.
pub fn validate_capacity(capacity: usize, page: usize) -> (outcome: Result<(), Error>)
    ensures
        outcome == (match capacity_fault(capacity as int, page as int) {
            Some(error) => Err::<(), Error>(error),
            None => Ok(()),
        }),
{
    if capacity == 0 || !is_power_of_two(capacity) {
        assert(!is_pow2(0)) by {
            reveal(is_pow2);
        }
        return Err(invalid_layout("capacity must be a nonzero power of two"));
    }
    if capacity < page || page == 0 || capacity % page != 0 {
        return Err(invalid_layout("capacity must be page aligned"));
    }
    if capacity as u128 > 0x8000_0000_0000_0000u128 {
        return Err(invalid_layout("capacity exceeds 2^63"));
    }
    match capacity.checked_mul(2) {
        Some(_) => {},
        None => return Err(invalid_layout("double mapping length overflows")),
    }
    if HEADER_LEN > page {
        return Err(platform_invariant("header exceeds one page"));
    }
    Ok(())
}

/// The layout of an object with a header page of `page` bytes and a payload of `capacity`
/// bytes, once the capacity was found to have `fault`.
pub open spec fn layout_with(
    capacity: Result<usize, Error>,
    fault: Option<Error>,
    page: int,
    overflowing: &'static str,
) -> Result<Layout, Error> {
    match capacity {
        Err(error) => Err(error),
        Ok(capacity) => match fault {
            Some(error) => Err(error),
            None => if page + capacity > usize::MAX {
                Err(Error::InvalidInput(overflowing))
            } else {
                Ok(
                    Layout {
                        page_size: page as usize,
                        capacity,
                        shared_memory_len: (page + capacity) as u64,
                    },
                )
            },
        },
    }
}

/// Lays out a named ring with at least `minimum_capacity` bytes on a Unix system with pages of
/// `page` bytes.
pub fn layout_for_minimum_capacity(minimum_capacity: usize, page: usize) -> (layout: Result<
    Layout,
    Error,
>)
    ensures
        ({
            let capacity = capacity_outcome(minimum_capacity as int, page as int);
            layout == layout_with(
                capacity,
                capacity_fault(capacity->Ok_0 as int, page as int),
                page as int,
                "shared-memory object length overflows usize",
            )
        }),
{
    let capacity: usize = match capacity_for_minimum(minimum_capacity, page) {
        Ok(capacity) => capacity,
        Err(error) => return Err(error),
    };
    match validate_capacity(capacity, page) {
        Ok(()) => {},
        Err(error) => return Err(error),
    }
    match page.checked_add(capacity) {
        Some(len) => Ok(Layout { page_size: page, capacity, shared_memory_len: len as u64 }),
        None => Err(invalid_input("shared-memory object length overflows usize")),
    }
}

/// Lays out a named ring with at least `minimum_capacity` bytes on Windows.
pub fn windows_layout_for_minimum_capacity(
    minimum_capacity: usize,
    page: usize,
    granularity: usize,
) -> (layout: Result<Layout, Error>)
    ensures
        ({
            let capacity = capacity_outcome(minimum_capacity as int, granularity as int);
            layout == layout_with(
                capacity,
                crate::mapping::section::capacity_fault(
                    capacity->Ok_0 as int,
                    page as int,
                    granularity as int,
                ),
                page as int,
                "shared-memory object length overflows",
            )
        }),
{
    let capacity: usize = match capacity_for_minimum(minimum_capacity, granularity) {
        Ok(capacity) => capacity,
        Err(error) => return Err(error),
    };
    match crate::mapping::section::validate_capacity(capacity, page, granularity) {
        Ok(()) => {},
        Err(error) => return Err(error),
    }
    match page.checked_add(capacity) {
        Some(len) => Ok(Layout { page_size: page, capacity, shared_memory_len: len as u64 }),
        None => Err(invalid_input("shared-memory object length overflows")),
    }
}

/// Whether an object of `size` bytes, as the system reports it, is exactly a header page and
/// a payload.
pub open spec fn size_outcome(size: int, page: int, capacity: int) -> Result<(), Error> {
    if page + capacity > usize::MAX {
        Err(Error::InvalidLayout("shared-memory object length overflows"))
    } else if size != page + capacity {
        Err(Error::InvalidLayout("shared-memory object length does not match capacity"))
    } else {
        Ok(())
    }
}

/// Checks that an object of `size` bytes is exactly a header page and a payload.
pub fn validate_shared_memory(size: i64, page: usize, capacity: usize) -> (outcome: Result<
    (),
    Error,
>)
    ensures
        outcome == size_outcome(size as int, page as int, capacity as int),
{
    match page.checked_add(capacity) {
        Some(expected) => if size < 0 || size as u128 != expected as u128 {
            Err(invalid_layout("shared-memory object length does not match capacity"))
        } else {
            Ok(())
        },
        None => Err(invalid_layout("shared-memory object length overflows")),
    }
}

/// What attaching to a named ring makes of the version and the capacity that its header
/// declares.
pub open spec fn declared(version: u64, capacity: u64) -> Result<usize, Error> {
    if version != ABI_VERSION {
        Err(Error::UnsupportedVersion(version))
    } else if capacity > usize::MAX {
        Err(Error::InvalidLayout("capacity exceeds usize"))
    } else {
        Ok(capacity as usize)
    }
}

/// Checks the version and the capacity that a header declares.
pub fn read_declaration(version: u64, capacity: u64) -> (declaration: Result<usize, Error>)
    ensures
        declaration == declared(version, capacity),
{
    if version != ABI_VERSION {
        return Err(unsupported_version(version));
    }
    if capacity > usize::MAX as u64 {
        return Err(invalid_layout("capacity exceeds usize"));
    }
    Ok(capacity as usize)
}

/// What attaching to a named ring makes of what its header declares, where a capacity may
/// have the fault `fault` on the machine.
pub open spec fn usable(version: u64, capacity: u64, fault: Option<Error>) -> Result<usize, Error> {
    match declared(version, capacity) {
        Err(error) => Err(error),
        Ok(capacity) => match fault {
            Some(error) => Err(error),
            None => Ok(capacity),
        },
    }
}

/// Checks what the header of a named ring on a Unix system declares, before the object itself
/// is looked at.
pub fn declared_capacity(version: u64, capacity: u64, page: usize) -> (usable_capacity: Result<
    usize,
    Error,
>)
    ensures
        usable_capacity == usable(
            version,
            capacity,
            capacity_fault(capacity as int, page as int),
        ),
{
    let capacity: usize = match read_declaration(version, capacity) {
        Ok(capacity) => capacity,
        Err(error) => return Err(error),
    };
    match validate_capacity(capacity, page) {
        Ok(()) => Ok(capacity),
        Err(error) => Err(error),
    }
}

/// Validates what the header of a named ring on a Unix system declares, before its payload is
/// mapped.
pub fn attach(version: u64, capacity: u64, size: i64, page: usize) -> (attached: Result<
    usize,
    Error,
>)
    ensures
        attached == (match usable(
            version,
            capacity,
            capacity_fault(capacity as int, page as int),
        ) {
            Err(error) => Err::<usize, Error>(error),
            Ok(capacity) => match size_outcome(size as int, page as int, capacity as int) {
                Err(error) => Err(error),
                Ok(()) => Ok(capacity),
            },
        }),
{
    let capacity: usize = match declared_capacity(version, capacity, page) {
        Ok(capacity) => capacity,
        Err(error) => return Err(error),
    };
    match validate_shared_memory(size, page, capacity) {
        Ok(()) => Ok(capacity),
        Err(error) => Err(error),
    }
}

/// Checks what the header of a named ring on Windows declares, before the section itself is
/// looked at.
pub fn declared_section_capacity(
    version: u64,
    capacity: u64,
    page: usize,
    granularity: usize,
) -> (usable_capacity: Result<usize, Error>)
    ensures
        usable_capacity == usable(
            version,
            capacity,
            crate::mapping::section::capacity_fault(
                capacity as int,
                page as int,
                granularity as int,
            ),
        ),
{
    let capacity: usize = match read_declaration(version, capacity) {
        Ok(capacity) => capacity,
        Err(error) => return Err(error),
    };
    match crate::mapping::section::validate_capacity(capacity, page, granularity) {
        Ok(()) => Ok(capacity),
        Err(error) => Err(error),
    }
}

/// Validates what the header of a section declares, before its payload is mapped.
pub fn attach_section(
    version: u64,
    capacity: u64,
    section: SectionView,
    page: usize,
    granularity: usize,
) -> (attached: Result<usize, Error>)
    ensures
        attached == (match usable(
            version,
            capacity,
            crate::mapping::section::capacity_fault(
                capacity as int,
                page as int,
                granularity as int,
            ),
        ) {
            Err(error) => Err::<usize, Error>(error),
            Ok(capacity) => match section_outcome(section, page as int, capacity as int) {
                Err(error) => Err(error),
                Ok(()) => Ok(capacity),
            },
        }),
{
    let capacity: usize = match declared_section_capacity(version, capacity, page, granularity) {
        Ok(capacity) => capacity,
        Err(error) => return Err(error),
    };
    match validate_section(section, page, capacity) {
        Ok(()) => Ok(capacity),
        Err(error) => Err(error),
    }
}

/// What a look at the version of a header at the time `now` leads to: a version of zero is
/// waited for.
pub open spec fn version_step(version: u64, deadline: u128, now: u128) -> Retry<u64> {
    if version != 0 {
        Retry::Return(Ok(version))
    } else {
        match wait_outcome(deadline, now) {
            Ok(pause) => Retry::Sleep(pause),
            Err(late) => Retry::Return(Err(late)),
        }
    }
}

/// Decides what follows a look at the version of a header at the time `now`.
pub fn wait_for_version(version: u64, deadline: InitializationDeadline, now: u128) -> (retry: Retry<
    u64,
>)
    ensures
        retry == version_step(version, deadline.deadline, now),
{
    if version != 0 {
        return Retry::Return(Ok(version));
    }
    match deadline.wait(now) {
        Ok(pause) => Retry::Sleep(pause),
        Err(late) => Retry::Return(Err(late)),
    }
}

/// What a look at the size of an object at the time `now` leads to: an object that does not
/// hold its header page yet is waited for.
pub open spec fn header_size_step(size: i64, page: int, deadline: u128, now: u128) -> Retry<()> {
    if size < 0 {
        Retry::Return(Err(Error::InvalidLayout("shared-memory object has a negative length")))
    } else if size >= page {
        Retry::Return(Ok(()))
    } else {
        match wait_outcome(deadline, now) {
            Ok(pause) => Retry::Sleep(pause),
            Err(late) => Retry::Return(Err(late)),
        }
    }
}

/// Decides what follows a look at the size of an object at the time `now`.
pub fn wait_for_header_size(
    size: i64,
    page: usize,
    deadline: InitializationDeadline,
    now: u128,
) -> (retry: Retry<()>)
    ensures
        retry == header_size_step(size, page as int, deadline.deadline, now),
{
    if size < 0 {
        return Retry::Return(Err(invalid_layout("shared-memory object has a negative length")));
    }
    if size as u128 >= page as u128 {
        return Retry::Return(Ok(()));
    }
    match deadline.wait(now) {
        Ok(pause) => Retry::Sleep(pause),
        Err(late) => Retry::Return(Err(late)),
    }
}

} // verus!

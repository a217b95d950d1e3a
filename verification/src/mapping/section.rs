//! The layout of a ring on Windows, where memory is shared through sections and views of
//! them come in multiples of an allocation granularity.

use crate::error::{
    invalid_input, invalid_layout, platform_invariant, unsupported_version, Error,
};
use crate::mapping::{
    capacity_for_granularity, capacity_on_machine, read_version, Layout, HEADER_LEN,
};
use crate::power::is_power_of_two;
use crate::ring::position::largest_capacity;
use crate::ring::ABI_VERSION;
use vstd::arithmetic::power2::is_pow2;
use vstd::prelude::*;

verus! {

/// What is wrong with `capacity` where pages have `page` bytes and views come in multiples of
/// `granularity`, if anything.
pub open spec fn capacity_fault(capacity: int, page: int, granularity: int) -> Option<Error> {
    if !is_pow2(capacity) {
        Some(Error::InvalidLayout("capacity must be a nonzero power of two"))
    } else if capacity < granularity || granularity == 0 || capacity % granularity != 0 {
        Some(Error::InvalidLayout("capacity must match allocation granularity"))
    } else if capacity > largest_capacity() {
        Some(Error::InvalidLayout("capacity exceeds 2^63"))
    } else if 2 * capacity > usize::MAX {
        Some(Error::InvalidLayout("double mapping overflow"))
    } else if HEADER_LEN > page {
        Some(Error::PlatformInvariant("header exceeds one page"))
    } else {
        None
    }
}

/// Checks that a ring can have `capacity` bytes.
pub fn validate_capacity(capacity: usize, page: usize, granularity: usize) -> (outcome: Result<
    (),
    Error,
>)
    ensures
        outcome == (match capacity_fault(capacity as int, page as int, granularity as int) {
            Some(error) => Err::<(), Error>(error),
            None => Ok(()),
        }),
{
    if capacity == 0 || !is_power_of_two(capacity) {
        assert(!is_pow2(0)) by {
            reveal(is_pow2);
        }
        return Err(invalid_layout("capacity must be a nonzero power of two"));
    }
    if capacity < granularity || granularity == 0 || capacity % granularity != 0 {
        return Err(invalid_layout("capacity must match allocation granularity"));
    }
    if capacity as u128 > 0x8000_0000_0000_0000u128 {
        return Err(invalid_layout("capacity exceeds 2^63"));
    }
    match capacity.checked_mul(2) {
        Some(_) => {},
        None => return Err(invalid_layout("double mapping overflow")),
    }
    if HEADER_LEN > page {
        return Err(platform_invariant("header exceeds one page"));
    }
    Ok(())
}

/// The layout for at least `minimum` bytes.
pub open spec fn layout_outcome(minimum: int, page: int, granularity: int) -> Result<
    Layout,
    Error,
> {
    match capacity_on_machine(minimum, granularity) {
        Err(error) => Err(error),
        Ok(capacity) => match capacity_fault(capacity as int, page, granularity) {
            Some(error) => Err(error),
            None => if page + capacity > usize::MAX {
                Err(Error::InvalidInput("shared-memory object length overflows"))
            } else {
                Ok(
                    Layout {
                        page_size: page as usize,
                        capacity,
                        shared_memory_len: (page + capacity) as u64,
                    },
                )
            },
        },
    }
}

/// Lays out a section for at least `minimum_capacity` bytes of payload.
pub fn layout_for_minimum_capacity(
    minimum_capacity: usize,
    page: usize,
    granularity: usize,
) -> (layout: Result<Layout, Error>)
    ensures
        layout == layout_outcome(minimum_capacity as int, page as int, granularity as int),
{
    if !is_power_of_two(granularity) {
        return Err(platform_invariant("mapping granularity must be a nonzero power of two"));
    }
    let capacity: usize = match capacity_for_granularity(minimum_capacity, granularity) {
        Ok(capacity) => capacity,
        Err(error) => return Err(error),
    };
    match validate_capacity(capacity, page, granularity) {
        Ok(()) => {},
        Err(error) => return Err(error),
    }
    match page.checked_add(capacity) {
        Some(len) => Ok(Layout { page_size: page, capacity, shared_memory_len: len as u64 }),
        None => Err(invalid_input("shared-memory object length overflows")),
    }
}

/// What Windows reports of the view of a whole section.
#[derive(Clone, Copy, Debug, PartialEq, Eq, Structural)]
pub struct SectionView {
    /// The view's own address.
    pub view: usize,
    /// Whether the query answered in full.
    pub answered: bool,
    /// Where the queried region begins.
    pub base: usize,
    /// Where the allocation that holds it begins.
    pub allocation: usize,
    /// How long the region is.
    pub len: usize,
}

/// Whether a section is exactly a header page and a payload.
pub open spec fn section_outcome(section: SectionView, page: int, capacity: int) -> Result<
    (),
    Error,
> {
    if page + capacity > usize::MAX {
        Err(Error::InvalidLayout("shared-memory object length overflows"))
    } else if !section.answered || section.base != section.view || section.allocation
        != section.view || section.len != page + capacity {
        Err(Error::InvalidLayout("shared-memory object length does not match capacity"))
    } else {
        Ok(())
    }
}

/// Checks that a section is exactly a header page and a payload.
pub fn validate_section(section: SectionView, page: usize, capacity: usize) -> (outcome: Result<
    (),
    Error,
>)
    ensures
        outcome == section_outcome(section, page as int, capacity as int),
{
    match page.checked_add(capacity) {
        Some(expected) => if !section.answered || section.base != section.view
            || section.allocation != section.view || section.len != expected {
            Err(invalid_layout("shared-memory object length does not match capacity"))
        } else {
            Ok(())
        },
        None => Err(invalid_layout("shared-memory object length overflows")),
    }
}

/// What attaching makes of the version and the capacity that a header declares, before it
/// looks at the section itself.
pub open spec fn declaration(version: u64, capacity: u64, page: int, granularity: int) -> Result<
    usize,
    Error,
> {
    if version == 0 {
        Err(Error::InvalidLayout("header initialization is incomplete"))
    } else if version != ABI_VERSION {
        Err(Error::UnsupportedVersion(version))
    } else if capacity > usize::MAX {
        Err(Error::InvalidLayout("capacity exceeds usize"))
    } else {
        match capacity_fault(capacity as int, page, granularity) {
            Some(error) => Err(error),
            None => Ok(capacity as usize),
        }
    }
}

/// Checks the version and the capacity that a header declares, before the section itself is
/// looked at.
pub fn read_declaration(version: u64, capacity: u64, page: usize, granularity: usize) -> (declared:
    Result<usize, Error>)
    ensures
        declared == declaration(version, capacity, page as int, granularity as int),
{
    let version: u64 = match read_version(version) {
        Ok(version) => version,
        Err(error) => return Err(error),
    };
    if version != ABI_VERSION {
        return Err(unsupported_version(version));
    }
    if capacity > usize::MAX as u64 {
        return Err(invalid_layout("capacity exceeds usize"));
    }
    let capacity: usize = capacity as usize;
    match validate_capacity(capacity, page, granularity) {
        Ok(()) => Ok(capacity),
        Err(error) => Err(error),
    }
}

/// What attaching makes of a section whose header declares `version` and `capacity`.
pub open spec fn attachment(
    version: u64,
    capacity: u64,
    section: SectionView,
    page: int,
    granularity: int,
) -> Result<usize, Error> {
    match declaration(version, capacity, page, granularity) {
        Err(error) => Err(error),
        Ok(declared) => match section_outcome(section, page, declared as int) {
            Err(error) => Err(error),
            Ok(()) => Ok(declared),
        },
    }
}

/// Validates what the header of an existing section declares before its payload is mapped.
pub fn attach(
    version: u64,
    capacity: u64,
    section: SectionView,
    page: usize,
    granularity: usize,
) -> (attached: Result<usize, Error>)
    ensures
        attached == attachment(version, capacity, section, page as int, granularity as int),
{
    let capacity: usize = match read_declaration(version, capacity, page, granularity) {
        Ok(capacity) => capacity,
        Err(error) => return Err(error),
    };
    match validate_section(section, page, capacity) {
        Ok(()) => Ok(capacity),
        Err(error) => Err(error),
    }
}

} // verus!

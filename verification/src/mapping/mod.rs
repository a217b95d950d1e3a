//! The layout of the shared-memory object behind a ring.
//!
//! The object holds one page with the header, then the payload. The payload is
//! mapped twice, back to back, so that any `capacity` bytes of it are contiguous.

use crate::error::{
    invalid_input, invalid_layout, platform_invariant, unsupported_version, Error,
};
use crate::power::{checked_next_power_of_two, is_power_of_two, next_power};
use crate::ring::position::{largest_capacity, valid_capacity};
use crate::ring::ABI_VERSION;
use vstd::arithmetic::power2::is_pow2;
use vstd::prelude::*;

pub mod laws;
pub mod memory;
pub mod payload;
pub mod placeholder;
pub mod section;

verus! {

/// How many bytes the shared header takes.
pub const HEADER_LEN: usize = 552;

/// `rustix::param::page_size`: returns the process' page size. Nothing is claimed of
/// it, as it is the machine's choice; callers test what they need.
pub assume_specification[ rustix::param::page_size ]() -> usize
;

/// Returns the granularity of mappings on this machine, which is also the least
/// capacity of a ring. It is what `page_size` answered, which is the machine's choice.
pub fn minimum_capacity() -> (granularity: usize)
    ensures
        call_ensures(rustix::param::page_size, (), granularity),
{
    rustix::param::page_size()
}

/// The larger of two lengths.
pub open spec fn larger(a: int, b: int) -> int {
    if a >= b {
        a
    } else {
        b
    }
}

/// The capacity of a ring that holds at least `minimum` bytes, where mappings come in
/// multiples of `granularity`: the least power of two that is large enough, as long as
/// it can be mapped twice.
pub open spec fn capacity_outcome(minimum: int, granularity: int) -> Result<usize, Error> {
    let capacity = next_power(larger(minimum, granularity) as nat);
    if capacity > usize::MAX {
        Err(Error::InvalidInput("minimum capacity is too large"))
    } else if capacity > largest_capacity() {
        Err(Error::InvalidInput("capacity exceeds 2^63"))
    } else if 2 * capacity > usize::MAX {
        Err(Error::InvalidInput("double-mapped capacity overflows address space"))
    } else {
        Ok(capacity as usize)
    }
}

/// The outcome of [`capacity_outcome`] on a machine whose granularity is a power of
/// two, and the broken platform guarantee on any other.
pub open spec fn capacity_on_machine(minimum: int, granularity: int) -> Result<usize, Error> {
    if is_pow2(granularity) {
        capacity_outcome(minimum, granularity)
    } else {
        Err(Error::PlatformInvariant("mapping granularity must be a nonzero power of two"))
    }
}

/// Rounds `minimum` up to a ring capacity, where mappings come in multiples of
/// `granularity`.
pub fn capacity_for_granularity(minimum: usize, granularity: usize) -> (capacity: Result<
    usize,
    Error,
>)
    requires
        is_pow2(granularity as int),
    ensures
        capacity == capacity_outcome(minimum as int, granularity as int),
{
    let least: usize = if minimum >= granularity {
        minimum
    } else {
        granularity
    };
    let capacity: usize = match checked_next_power_of_two(least) {
        Some(capacity) => capacity,
        None => return Err(invalid_input("minimum capacity is too large")),
    };
    if capacity as u128 > 0x8000_0000_0000_0000u128 {
        return Err(invalid_input("capacity exceeds 2^63"));
    }
    match capacity.checked_mul(2) {
        Some(_) => Ok(capacity),
        None => Err(invalid_input("double-mapped capacity overflows address space")),
    }
}

/// A granted capacity is a valid one, holds the minimum and one unit of mapping, is
/// less than twice as large as those need, and can be mapped twice.
pub proof fn lemma_capacity_fits(minimum: int, granularity: int)
    requires
        0 <= minimum,
        is_pow2(granularity),
        capacity_outcome(minimum, granularity) is Ok,
    ensures
        ({
            let capacity = capacity_outcome(minimum, granularity)->Ok_0;
            &&& valid_capacity(capacity as int)
            &&& minimum <= capacity
            &&& granularity <= capacity
            &&& capacity as int % granularity == 0
            &&& capacity < 2 * larger(minimum, granularity)
            &&& 2 * capacity <= usize::MAX
        }),
{
    let least = larger(minimum, granularity);
    let capacity = next_power(least as nat) as int;
    crate::power::lemma_next_power_is_least(least as nat);
    crate::power::lemma_power_divides(granularity, capacity);
    assert(granularity > 0) by {
        reveal(is_pow2);
    }
    if capacity >= 2 * least {
        reveal(is_pow2);
        assert(is_pow2(capacity / 2));
    }
}

/// Rounds `minimum` up to a ring capacity on this machine.
pub fn capacity_for_minimum(minimum: usize) -> (capacity: Result<usize, Error>)
    ensures
        exists|granularity: usize|
            call_ensures(rustix::param::page_size, (), granularity) && capacity
                == #[trigger] capacity_on_machine(minimum as int, granularity as int),
        capacity matches Ok(granted) ==> {
            &&& valid_capacity(granted as int)
            &&& minimum <= granted
            &&& 2 * granted <= usize::MAX
        },
{
    let granularity: usize = rustix::param::page_size();
    let capacity = if is_power_of_two(granularity) {
        capacity_for_granularity(minimum, granularity)
    } else {
        Err(platform_invariant("mapping granularity must be a nonzero power of two"))
    };
    assert(capacity == capacity_on_machine(minimum as int, granularity as int));
    proof {
        if capacity is Ok {
            lemma_capacity_fits(minimum as int, granularity as int);
        }
    }
    capacity
}

/// What is wrong with `capacity` where pages have `page` bytes, if anything.
pub open spec fn capacity_fault(capacity: int, page: int) -> Option<Error> {
    if !is_pow2(capacity) {
        Some(Error::InvalidLayout("capacity must be a nonzero power of two"))
    } else if capacity < page || page == 0 || capacity % page != 0 {
        Some(Error::InvalidLayout("capacity must be page aligned"))
    } else if capacity > largest_capacity() {
        Some(Error::InvalidLayout("capacity exceeds 2^63"))
    } else {
        None
    }
}

/// Checks that a ring can have `capacity` bytes where pages have `page` bytes. A page
/// that passes must hold the header.
pub fn validate_capacity(capacity: usize, page: usize) -> (outcome: Result<(), Error>)
    requires
        capacity_fault(capacity as int, page as int) is None ==> HEADER_LEN <= page,
    ensures
        outcome == (match capacity_fault(capacity as int, page as int) {
            Some(error) => Err::<(), Error>(error),
            None => Ok(()),
        }),
{
    if capacity == 0 || !is_power_of_two(capacity) {
        assert(!is_pow2(0)) by {
            reveal(is_pow2);
        }
        return Err(invalid_layout("capacity must be a nonzero power of two"));
    }
    if capacity < page || page == 0 || capacity % page != 0 {
        return Err(invalid_layout("capacity must be page aligned"));
    }
    if capacity as u128 > 0x8000_0000_0000_0000u128 {
        return Err(invalid_layout("capacity exceeds 2^63"));
    }
    Ok(())
}

/// The layout of one shared-memory object.
#[derive(Clone, Copy, Debug, PartialEq, Eq, Structural)]
pub struct Layout {
    /// The length of the page that holds the header.
    pub page_size: usize,
    /// The length of the payload.
    pub capacity: usize,
    /// The length of the whole object.
    pub shared_memory_len: u64,
}

/// The layout of an object with a header page of `page` bytes and a payload of
/// `capacity` bytes.
pub open spec fn layout_outcome(page: int, capacity: int) -> Result<Layout, Error> {
    match capacity_fault(capacity, page) {
        Some(error) => Err(error),
        None => if page + capacity > usize::MAX {
            Err(Error::InvalidLayout("shared-memory object length overflows"))
        } else {
            Ok(
                Layout {
                    page_size: page as usize,
                    capacity: capacity as usize,
                    shared_memory_len: (page + capacity) as u64,
                },
            )
        },
    }
}

/// The layout for at least `minimum` bytes on a machine with pages of `page` bytes.
pub open spec fn layout_on_machine(minimum: int, page: int) -> Result<Layout, Error> {
    match capacity_on_machine(minimum, page) {
        Err(error) => Err(error),
        Ok(capacity) => if page < HEADER_LEN {
            Err(Error::PlatformInvariant("header exceeds one page"))
        } else {
            layout_outcome(page, capacity as int)
        },
    }
}

impl Layout {
    /// The parts fit together.
    pub open spec fn wf(&self) -> bool {
        &&& capacity_fault(self.capacity as int, self.page_size as int) is None
        &&& self.page_size + self.capacity == self.shared_memory_len <= usize::MAX
        &&& HEADER_LEN <= self.page_size
    }

    /// A well-formed layout has a valid capacity.
    pub proof fn lemma_capacity(&self)
        requires
            self.wf(),
        ensures
            valid_capacity(self.capacity as int),
            0 < self.capacity,
    {
        reveal(is_pow2);
    }

    /// Lays out an object with a header page of `page_size` bytes and a payload of
    /// `capacity` bytes.
    pub fn new(page_size: usize, capacity: usize) -> (layout: Result<Self, Error>)
        requires
            capacity_fault(capacity as int, page_size as int) is None ==> HEADER_LEN <= page_size,
        ensures
            layout == layout_outcome(page_size as int, capacity as int),
            layout matches Ok(layout) ==> layout.wf(),
    {
        match validate_capacity(capacity, page_size) {
            Ok(()) => {},
            Err(error) => return Err(error),
        }
        Self::of_object(page_size, capacity)
    }

    /// Returns the layout of an object whose header page has `page_size` bytes and whose
    /// payload was found to have `capacity` bytes.
    pub fn of_object(page_size: usize, capacity: usize) -> (layout: Result<Self, Error>)
        ensures
            layout == (if page_size + capacity > usize::MAX {
                Err(Error::InvalidLayout("shared-memory object length overflows"))
            } else {
                Ok(
                    Layout {
                        page_size,
                        capacity,
                        shared_memory_len: (page_size + capacity) as u64,
                    },
                )
            }),
    {
        match page_size.checked_add(capacity) {
            Some(len) => Ok(Layout { page_size, capacity, shared_memory_len: len as u64 }),
            None => Err(invalid_layout("shared-memory object length overflows")),
        }
    }

    /// Lays out an object for at least `minimum_capacity` bytes of payload on this
    /// machine.
    pub fn for_minimum_capacity(minimum_capacity: usize) -> (layout: Result<Self, Error>)
        ensures
            exists|page: usize|
                call_ensures(rustix::param::page_size, (), page) && layout
                    == #[trigger] layout_on_machine(minimum_capacity as int, page as int),
            layout matches Ok(layout) ==> layout.wf() && minimum_capacity <= layout.capacity,
    {
        let page: usize = rustix::param::page_size();
        let layout = Self::for_page(minimum_capacity, page);
        assert(layout == layout_on_machine(minimum_capacity as int, page as int));
        layout
    }

    /// Lays out an object for at least `minimum_capacity` bytes of payload on a machine
    /// with pages of `page` bytes.
    pub fn for_page(minimum_capacity: usize, page: usize) -> (layout: Result<Self, Error>)
        ensures
            layout == layout_on_machine(minimum_capacity as int, page as int),
            layout matches Ok(layout) ==> layout.wf() && minimum_capacity <= layout.capacity,
    {
        if !is_power_of_two(page) {
            return Err(platform_invariant("mapping granularity must be a nonzero power of two"));
        }
        let capacity: usize = match capacity_for_granularity(minimum_capacity, page) {
            Ok(capacity) => capacity,
            Err(error) => return Err(error),
        };
        proof {
            lemma_capacity_fits(minimum_capacity as int, page as int);
        }
        if page < HEADER_LEN {
            return Err(platform_invariant("header exceeds one page"));
        }
        Self::new(page, capacity)
    }
}

/// Checks that a header is initialized, by its version.
pub fn read_version(version: u64) -> (checked: Result<u64, Error>)
    ensures
        checked == (if version == 0 {
            Err(Error::InvalidLayout("header initialization is incomplete"))
        } else {
            Ok(version)
        }),
{
    if version == 0 {
        Err(invalid_layout("header initialization is incomplete"))
    } else {
        Ok(version)
    }
}

/// The length of an object, from the length that the system reports for it.
pub fn shared_memory_len(size: i64) -> (len: Result<u64, Error>)
    ensures
        len == (if size < 0 {
            Err(Error::InvalidLayout("shared-memory object has a negative length"))
        } else {
            Ok(size as u64)
        }),
{
    if size < 0 {
        Err(invalid_layout("shared-memory object has a negative length"))
    } else {
        Ok(size as u64)
    }
}

/// Checks that an object of `shared_memory_len` bytes holds its header page.
pub fn validate_header_len(shared_memory_len: u64, page: usize) -> (outcome: Result<(), Error>)
    ensures
        outcome == (if shared_memory_len < page {
            Err(Error::InvalidLayout("shared-memory object is shorter than its header"))
        } else {
            Ok(())
        }),
{
    if shared_memory_len < page as u64 {
        Err(invalid_layout("shared-memory object is shorter than its header"))
    } else {
        Ok(())
    }
}

/// Checks that an object of `shared_memory_len` bytes holds everything that `layout`
/// says. Trailing bytes are accepted.
pub fn validate_shared_memory_len(shared_memory_len: u64, layout: &Layout) -> (outcome: Result<
    (),
    Error,
>)
    ensures
        outcome == length_outcome(shared_memory_len, *layout),
{
    if shared_memory_len < layout.shared_memory_len {
        Err(invalid_layout("shared-memory object is shorter than its declared capacity"))
    } else {
        Ok(())
    }
}

/// Whether an object of `shared_memory_len` bytes holds everything that `layout` says.
pub open spec fn length_outcome(shared_memory_len: u64, layout: Layout) -> Result<(), Error> {
    if shared_memory_len < layout.shared_memory_len {
        Err(Error::InvalidLayout("shared-memory object is shorter than its declared capacity"))
    } else {
        Ok(())
    }
}

/// What attaching makes of an object of `shared_memory_len` bytes whose header declares
/// `version` and `capacity`, where pages have `page` bytes.
pub open spec fn attachment(version: u64, capacity: u64, shared_memory_len: u64, page: int) -> Result<
    Layout,
    Error,
> {
    if shared_memory_len < page {
        Err(Error::InvalidLayout("shared-memory object is shorter than its header"))
    } else if version == 0 {
        Err(Error::InvalidLayout("header initialization is incomplete"))
    } else if version != ABI_VERSION {
        Err(Error::UnsupportedVersion(version))
    } else if capacity > usize::MAX {
        Err(Error::InvalidLayout("capacity exceeds usize"))
    } else {
        match layout_outcome(page, capacity as int) {
            Err(error) => Err(error),
            Ok(layout) => match length_outcome(shared_memory_len, layout) {
                Err(error) => Err(error),
                Ok(()) => Ok(layout),
            },
        }
    }
}

/// Validates what the header of an existing object declares before its payload is
/// mapped.
pub fn attach(version: u64, capacity: u64, shared_memory_len: u64, page: usize) -> (layout: Result<
    Layout,
    Error,
>)
    requires
        HEADER_LEN <= page,
    ensures
        layout == attachment(version, capacity, shared_memory_len, page as int),
        layout matches Ok(layout) ==> layout.wf() && layout.shared_memory_len <= shared_memory_len,
{
    match validate_header_len(shared_memory_len, page) {
        Ok(()) => {},
        Err(error) => return Err(error),
    }
    let version: u64 = match read_version(version) {
        Ok(version) => version,
        Err(error) => return Err(error),
    };
    if version != ABI_VERSION {
        return Err(unsupported_version(version));
    }
    if capacity > usize::MAX as u64 {
        return Err(invalid_layout("capacity exceeds usize"));
    }
    let layout = match Layout::new(page, capacity as usize) {
        Ok(layout) => layout,
        Err(error) => return Err(error),
    };
    match validate_shared_memory_len(shared_memory_len, &layout) {
        Ok(()) => Ok(layout),
        Err(error) => Err(error),
    }
}

/// Attaching accepts what creating lays out, also where bytes trail the payload: the
/// attached layout is the created one.
pub proof fn law_created_rings_attach(layout: Layout, shared_memory_len: u64)
    requires
        layout.wf(),
        layout.shared_memory_len <= shared_memory_len,
    ensures
        attachment(
            ABI_VERSION,
            layout.capacity as u64,
            shared_memory_len,
            layout.page_size as int,
        ) == Ok::<Layout, Error>(layout),
{
}

} // verus!

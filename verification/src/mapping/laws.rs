//! What the layout of a ring guarantees, on every machine: how large a ring becomes, which
//! layouts there are, and which objects may be attached to.

use crate::error::Error;
use crate::mapping::section::SectionView;
use crate::mapping::{
    attachment, capacity_fault, capacity_on_machine, layout_on_machine, layout_outcome,
    length_outcome, Layout, HEADER_LEN,
};
use crate::power::{lemma_next_power_is_least, lemma_powers_apart, next_power};
use crate::ring::ABI_VERSION;
use vstd::arithmetic::power2::is_pow2;
use vstd::prelude::*;

verus! {

/// Whether `rounded` is the power of two that `minimum` bytes are rounded up to, where mappings
/// come in multiples of `granularity`: it is at least as large as both, and its half is not.
pub open spec fn rounds_to(minimum: int, granularity: int, rounded: int) -> bool {
    &&& is_pow2(rounded)
    &&& minimum <= rounded
    &&& granularity <= rounded
    &&& rounded < 2 * minimum || rounded < 2 * granularity
}

/// Every minimum is rounded up to exactly one power of two, which the library computes.
pub proof fn lemma_rounding(minimum: int, granularity: int, least: int)
    requires
        0 <= minimum,
        0 < granularity,
        least == minimum || least == granularity,
        minimum <= least,
        granularity <= least,
    ensures
        rounds_to(minimum, granularity, next_power(least as nat) as int),
        forall|rounded: int| #[trigger]
            rounds_to(minimum, granularity, rounded) ==> rounded == next_power(least as nat),
{
    let power = next_power(least as nat) as int;
    lemma_next_power_is_least(least as nat);
    if power >= 2 * least {
        reveal(is_pow2);
        assert(is_pow2(power / 2));
    }
    assert forall|rounded: int| #[trigger] rounds_to(minimum, granularity, rounded) implies rounded
        == power by {
        if rounded < power {
            lemma_powers_apart(rounded, power);
        } else if power < rounded {
            lemma_powers_apart(power, rounded);
        }
    }
}

/// A ring becomes as large as its minimum, rounded up to a power of two and to one unit of
/// mapping, and no larger. It is refused exactly where that cannot be mapped twice or exceeds the
/// largest capacity, or where the machine's unit of mapping is no power of two.
pub proof fn law_capacities_are_rounded_up(minimum: int, granularity: int, rounded: int)
    requires
        0 <= minimum,
    ensures
        is_pow2(granularity) ==> exists|power: int| #[trigger]
            rounds_to(minimum, granularity, power),
        is_pow2(granularity) && rounds_to(minimum, granularity, rounded) ==> capacity_on_machine(
            minimum,
            granularity,
        ) == (if rounded > usize::MAX {
            Err::<usize, Error>(Error::InvalidInput("minimum capacity is too large"))
        } else if rounded > 0x8000_0000_0000_0000 {
            Err::<usize, Error>(Error::InvalidInput("capacity exceeds 2^63"))
        } else if rounded + rounded > usize::MAX {
            Err::<usize, Error>(
                Error::InvalidInput("double-mapped capacity overflows address space"),
            )
        } else {
            Ok::<usize, Error>(rounded as usize)
        }),
        !is_pow2(granularity) ==> capacity_on_machine(minimum, granularity) == Err::<usize, Error>(
            Error::PlatformInvariant("mapping granularity must be a nonzero power of two"),
        ),
{
    if is_pow2(granularity) {
        assert(granularity > 0) by {
            reveal(is_pow2);
        }
        let least = if minimum >= granularity {
            minimum
        } else {
            granularity
        };
        lemma_rounding(minimum, granularity, least);
    }
}

/// A larger minimum never gives a smaller ring, and the capacity of a ring, as a minimum, gives
/// that capacity again.
pub proof fn law_larger_minimums_give_larger_rings(less: int, more: int, granularity: int)
    requires
        0 <= less <= more,
        capacity_on_machine(more, granularity) is Ok,
    ensures
        capacity_on_machine(less, granularity) is Ok,
        less <= capacity_on_machine(less, granularity)->Ok_0 <= capacity_on_machine(
            more,
            granularity,
        )->Ok_0,
        capacity_on_machine(
            capacity_on_machine(more, granularity)->Ok_0 as int,
            granularity,
        ) == capacity_on_machine(more, granularity),
{
    assert(granularity > 0) by {
        reveal(is_pow2);
    }
    let small = if less >= granularity {
        less
    } else {
        granularity
    };
    let large = if more >= granularity {
        more
    } else {
        granularity
    };
    lemma_rounding(less, granularity, small);
    lemma_rounding(more, granularity, large);
    lemma_next_power_is_least(small as nat);
    lemma_next_power_is_least(large as nat);
    let capacity = next_power(large as nat) as int;
    lemma_rounding(capacity, granularity, capacity);
    assert(rounds_to(capacity, granularity, capacity)) by {
        reveal(is_pow2);
    }
}

/// The header takes five words and one position for each of the sixty-four readers, and its
/// layout is the first version.
pub proof fn law_headers_hold_every_position()
    ensures
        HEADER_LEN == 8 * (5 + 64),
        ABI_VERSION == 1,
{
}

/// A ring may have every capacity that is a power of two, comes in whole pages and is no larger
/// than the largest one; and each other capacity is refused for the first of these that it lacks.
pub proof fn law_whole_pages_are_capacities(capacity: int, page: int)
    requires
        0 <= page,
    ensures
        capacity_fault(capacity, page) is None <==> {
            &&& is_pow2(capacity)
            &&& 0 < page <= capacity
            &&& capacity % page == 0
            &&& capacity <= 0x8000_0000_0000_0000
        },
        !is_pow2(capacity) ==> capacity_fault(capacity, page) == Some(
            Error::InvalidLayout("capacity must be a nonzero power of two"),
        ),
        is_pow2(capacity) && (page == 0 || capacity < page || capacity % page != 0)
            ==> capacity_fault(capacity, page) == Some(
            Error::InvalidLayout("capacity must be page aligned"),
        ),
        is_pow2(capacity) && 0 < page <= capacity && capacity % page == 0 && capacity
            > 0x8000_0000_0000_0000 ==> capacity_fault(capacity, page) == Some(
            Error::InvalidLayout("capacity exceeds 2^63"),
        ),
{
}

/// An object is a header page followed by the payload: every possible capacity has a layout,
/// whose length is that of both, unless no `usize` holds that.
pub proof fn law_objects_hold_a_page_and_a_payload(page: int, capacity: int)
    requires
        is_pow2(capacity),
        0 < page <= capacity <= 0x8000_0000_0000_0000,
        capacity % page == 0,
    ensures
        page + capacity <= usize::MAX ==> (layout_outcome(page, capacity) matches Ok(layout) && {
            &&& layout.page_size == page
            &&& layout.capacity == capacity
            &&& layout.shared_memory_len == page + capacity
        }),
        page + capacity > usize::MAX ==> layout_outcome(page, capacity) == Err::<Layout, Error>(
            Error::InvalidLayout("shared-memory object length overflows"),
        ),
{
}

/// Nothing but a possible capacity has a layout.
pub proof fn law_layouts_have_possible_capacities(page: int, capacity: int)
    requires
        0 <= page,
        layout_outcome(page, capacity) is Ok,
    ensures
        is_pow2(capacity),
        0 < page <= capacity <= 0x8000_0000_0000_0000,
        capacity % page == 0,
        page + capacity <= usize::MAX,
{
}

/// On a machine whose pages hold the header, every minimum whose rounding can be mapped twice has
/// a layout of one page and that capacity.
pub proof fn law_minimums_are_laid_out(minimum: int, page: int, rounded: int)
    requires
        0 <= minimum,
        is_pow2(page),
        rounds_to(minimum, page, rounded),
        rounded <= 0x8000_0000_0000_0000,
        rounded + rounded <= usize::MAX,
    ensures
        page >= HEADER_LEN ==> (layout_on_machine(minimum, page) matches Ok(layout) && {
            &&& layout.page_size == page
            &&& layout.capacity == rounded
            &&& layout.shared_memory_len == page + rounded
            &&& layout.wf()
        }),
        page < HEADER_LEN ==> layout_on_machine(minimum, page) == Err::<Layout, Error>(
            Error::PlatformInvariant("header exceeds one page"),
        ),
{
    law_capacities_are_rounded_up(minimum, page, rounded);
    crate::power::lemma_power_divides(page, rounded);
    assert(page > 0) by {
        reveal(is_pow2);
    }
}

/// What cannot be rounded has no layout either, for the same reason.
pub proof fn law_refused_capacities_are_not_laid_out(minimum: int, page: int)
    requires
        capacity_on_machine(minimum, page) is Err,
    ensures
        layout_on_machine(minimum, page) == Err::<Layout, Error>(
            capacity_on_machine(minimum, page)->Err_0,
        ),
{
}

/// An object may be attached to exactly where its header is of this library's version and
/// declares a possible capacity, and the object holds a page and so many bytes. What it is
/// attached with is that page and that capacity.
pub proof fn law_whole_rings_are_attached_to(
    version: u64,
    capacity: u64,
    shared_memory_len: u64,
    page: int,
)
    requires
        0 <= page,
    ensures
        attachment(version, capacity, shared_memory_len, page) is Ok <==> {
            &&& version == 1
            &&& is_pow2(capacity as int)
            &&& 0 < page <= capacity <= 0x8000_0000_0000_0000
            &&& capacity as int % page == 0
            &&& page + capacity <= usize::MAX
            &&& page + capacity <= shared_memory_len
        },
        attachment(version, capacity, shared_memory_len, page) matches Ok(layout) ==> {
            &&& layout.page_size == page
            &&& layout.capacity == capacity
            &&& layout.shared_memory_len == page + capacity
        },
        shared_memory_len < page ==> attachment(version, capacity, shared_memory_len, page) == Err::<
            Layout,
            Error,
        >(Error::InvalidLayout("shared-memory object is shorter than its header")),
        shared_memory_len >= page && version == 0 ==> attachment(
            version,
            capacity,
            shared_memory_len,
            page,
        ) == Err::<Layout, Error>(Error::InvalidLayout("header initialization is incomplete")),
        shared_memory_len >= page && version > 1 ==> attachment(
            version,
            capacity,
            shared_memory_len,
            page,
        ) == Err::<Layout, Error>(Error::UnsupportedVersion(version)),
        shared_memory_len >= page && version == 1 && capacity > usize::MAX ==> attachment(
            version,
            capacity,
            shared_memory_len,
            page,
        ) == Err::<Layout, Error>(Error::InvalidLayout("capacity exceeds usize")),
        shared_memory_len >= page && version == 1 && capacity <= usize::MAX && layout_outcome(
            page,
            capacity as int,
        ) is Err ==> attachment(version, capacity, shared_memory_len, page) == layout_outcome(
            page,
            capacity as int,
        ),
        shared_memory_len >= page && version == 1 && layout_outcome(page, capacity as int) is Ok
            && shared_memory_len < page + capacity ==> attachment(
            version,
            capacity,
            shared_memory_len,
            page,
        ) == Err::<Layout, Error>(
            Error::InvalidLayout("shared-memory object is shorter than its declared capacity"),
        ),
{
}

/// An object holds a layout exactly where it is at least as long: bytes may trail it.
pub proof fn law_trailing_bytes_are_accepted(shared_memory_len: u64, layout: Layout)
    ensures
        length_outcome(shared_memory_len, layout) is Ok <==> layout.shared_memory_len
            <= shared_memory_len,
{
}

/// On Windows a ring may have every capacity that is a power of two, comes in whole units of
/// allocation, can be mapped twice and is no larger than the largest one, where a page holds the
/// header; and each other capacity is refused for the first of these that it lacks.
pub proof fn law_whole_units_are_section_capacities(capacity: int, page: int, granularity: int)
    requires
        0 <= granularity,
    ensures
        ({
            let fault = crate::mapping::section::capacity_fault(capacity, page, granularity);
            let aligned = 0 < granularity <= capacity && capacity % granularity == 0;
            &&& fault is None <==> {
                &&& is_pow2(capacity)
                &&& aligned
                &&& capacity <= 0x8000_0000_0000_0000
                &&& capacity + capacity <= usize::MAX
                &&& HEADER_LEN <= page
            }
            &&& !is_pow2(capacity) ==> fault == Some(
                Error::InvalidLayout("capacity must be a nonzero power of two"),
            )
            &&& is_pow2(capacity) && !aligned ==> fault == Some(
                Error::InvalidLayout("capacity must match allocation granularity"),
            )
            &&& is_pow2(capacity) && aligned && capacity > 0x8000_0000_0000_0000 ==> fault == Some(
                Error::InvalidLayout("capacity exceeds 2^63"),
            )
            &&& is_pow2(capacity) && aligned && capacity <= 0x8000_0000_0000_0000 && capacity
                + capacity > usize::MAX ==> fault == Some(
                Error::InvalidLayout("double mapping overflow"),
            )
            &&& is_pow2(capacity) && aligned && capacity <= 0x8000_0000_0000_0000 && capacity
                + capacity <= usize::MAX && page < HEADER_LEN ==> fault == Some(
                Error::PlatformInvariant("header exceeds one page"),
            )
        }),
{
}

/// On Windows every minimum whose rounding can be mapped twice has a layout of one page and that
/// capacity, where a page holds the header and its length can be added to that.
pub proof fn law_minimums_are_laid_out_in_sections(
    minimum: int,
    page: int,
    granularity: int,
    rounded: int,
)
    requires
        0 <= minimum,
        is_pow2(granularity),
        rounds_to(minimum, granularity, rounded),
        rounded <= 0x8000_0000_0000_0000,
        rounded + rounded <= usize::MAX,
        HEADER_LEN <= page,
    ensures
        page + rounded <= usize::MAX ==> (crate::mapping::section::layout_outcome(
            minimum,
            page,
            granularity,
        ) matches Ok(layout) && {
            &&& layout.page_size == page
            &&& layout.capacity == rounded
            &&& layout.shared_memory_len == page + rounded
        }),
        page + rounded > usize::MAX ==> crate::mapping::section::layout_outcome(
            minimum,
            page,
            granularity,
        ) == Err::<Layout, Error>(Error::InvalidInput("shared-memory object length overflows")),
{
    law_capacities_are_rounded_up(minimum, granularity, rounded);
    crate::power::lemma_power_divides(granularity, rounded);
    assert(granularity > 0) by {
        reveal(is_pow2);
    }
}

/// A section may be attached to exactly where its header is of this library's version and
/// declares a possible capacity, and the section is one region of its own that holds exactly a
/// page and so many bytes. What it is attached with is that capacity.
pub proof fn law_whole_sections_are_attached_to(
    version: u64,
    capacity: u64,
    section: SectionView,
    page: int,
    granularity: int,
)
    requires
        0 <= page,
        0 <= granularity,
    ensures
        ({
            let attached = crate::mapping::section::attachment(
                version,
                capacity,
                section,
                page,
                granularity,
            );
            let possible = {
                &&& is_pow2(capacity as int)
                &&& 0 < granularity <= capacity <= 0x8000_0000_0000_0000
                &&& capacity as int % granularity == 0
                &&& capacity + capacity <= usize::MAX
                &&& HEADER_LEN <= page
            };
            &&& attached is Ok <==> {
                &&& version == 1
                &&& possible
                &&& section.answered
                &&& section.base == section.view
                &&& section.allocation == section.view
                &&& section.len == page + capacity
            }
            &&& attached matches Ok(declared) ==> declared == capacity
            &&& version == 0 ==> attached == Err::<usize, Error>(
                Error::InvalidLayout("header initialization is incomplete"),
            )
            &&& version > 1 ==> attached == Err::<usize, Error>(Error::UnsupportedVersion(version))
            &&& version == 1 && possible && page + capacity > usize::MAX ==> attached == Err::<
                usize,
                Error,
            >(Error::InvalidLayout("shared-memory object length overflows"))
            &&& version == 1 && possible && page + capacity <= usize::MAX && !(section.answered
                && section.base == section.view && section.allocation == section.view && section.len
                == page + capacity) ==> attached == Err::<usize, Error>(
                Error::InvalidLayout("shared-memory object length does not match capacity"),
            )
        }),
{
    law_whole_units_are_section_capacities(capacity as int, page, granularity);
}

/// What a section's header declares is used exactly where it is of this library's version and
/// declares a possible capacity, and is refused for the first of these that it lacks.
pub proof fn law_section_declarations_are_taken_at_their_word(
    version: u64,
    capacity: u64,
    page: int,
    granularity: int,
)
    ensures
        ({
            let declared = crate::mapping::section::declaration(
                version,
                capacity,
                page,
                granularity,
            );
            let fault = crate::mapping::section::capacity_fault(
                capacity as int,
                page,
                granularity,
            );
            &&& declared is Ok <==> version == 1 && capacity <= usize::MAX && fault is None
            &&& declared matches Ok(used) ==> used == capacity
            &&& version == 0 ==> declared == Err::<usize, Error>(
                Error::InvalidLayout("header initialization is incomplete"),
            )
            &&& version > 1 ==> declared == Err::<usize, Error>(Error::UnsupportedVersion(version))
            &&& version == 1 && capacity > usize::MAX ==> declared == Err::<usize, Error>(
                Error::InvalidLayout("capacity exceeds usize"),
            )
            &&& version == 1 && capacity <= usize::MAX ==> (fault matches Some(error) ==> declared
                == Err::<usize, Error>(error))
        }),
{
}

/// Attaching accepts every section that creating lays out.
pub proof fn law_created_sections_attach(
    minimum: int,
    page: int,
    granularity: int,
    view: usize,
)
    requires
        0 <= page,
        crate::mapping::section::layout_outcome(minimum, page, granularity) is Ok,
    ensures
        ({
            let layout = crate::mapping::section::layout_outcome(minimum, page, granularity)->Ok_0;
            crate::mapping::section::attachment(
                ABI_VERSION,
                layout.capacity as u64,
                SectionView {
                    view,
                    answered: true,
                    base: view,
                    allocation: view,
                    len: layout.shared_memory_len as usize,
                },
                page,
                granularity,
            ) == Ok::<usize, Error>(layout.capacity)
        }),
{
}

} // verus!

//! What named rings guarantee: how large they become, which objects they are found in, and how
//! long an initialization is waited for.

use crate::error::{Error, ErrorKind};
use crate::mapping::laws::{lemma_rounding, rounds_to};
use crate::mapping::section::{section_outcome, SectionView};
use crate::mapping::{Layout, HEADER_LEN};
use crate::platform::connection::{retry_outcome, valid_name, wait_outcome, Retry};
use crate::platform::mapping::{
    capacity_fault, capacity_outcome, declared, header_size_step, layout_with, size_outcome,
    usable, version_step,
};
use crate::platform::sys::system_error;
use crate::power::lemma_power_divides;
use crate::ring::ABI_VERSION;
use vstd::arithmetic::power2::is_pow2;
use vstd::prelude::*;
use vstd::utf8::encode_utf8;

verus! {

/// A named ring's capacity, wherever one is granted, is a power of two in whole units of mapping
/// that holds the minimum, and less than twice what the minimum and one unit need.
pub proof fn law_named_capacities_fit(minimum: int, granularity: int)
    requires
        0 <= minimum,
        capacity_outcome(minimum, granularity) is Ok,
    ensures
        ({
            let capacity = capacity_outcome(minimum, granularity)->Ok_0;
            &&& is_pow2(capacity as int)
            &&& granularity > 0
            &&& capacity as int % granularity == 0
            &&& minimum <= capacity
            &&& granularity <= capacity
            &&& capacity < 2 * minimum || capacity < 2 * granularity
            &&& capacity <= 0x8000_0000_0000_0000
        }),
{
    assert(granularity > 0) by {
        reveal(is_pow2);
    }
    let least = if minimum >= granularity {
        minimum
    } else {
        granularity
    };
    lemma_rounding(minimum, granularity, least);
    lemma_power_divides(granularity, capacity_outcome(minimum, granularity)->Ok_0 as int);
}

/// A named ring becomes as large as its minimum, rounded up to a power of two and to one unit of
/// mapping, and no larger. It is refused exactly where there is no minimum, where the unit is no
/// power of two, and where the rounding exceeds a `usize` or the largest capacity.
pub proof fn law_named_capacities_are_rounded_up(minimum: int, granularity: int, rounded: int)
    requires
        0 <= minimum,
    ensures
        minimum == 0 ==> capacity_outcome(minimum, granularity) == Err::<usize, Error>(
            Error::InvalidInput("minimum capacity must be greater than zero"),
        ),
        minimum > 0 && !is_pow2(granularity) ==> capacity_outcome(minimum, granularity) == Err::<
            usize,
            Error,
        >(Error::PlatformInvariant("mapping granularity must be a nonzero power of two")),
        minimum > 0 && is_pow2(granularity) && rounds_to(minimum, granularity, rounded)
            ==> capacity_outcome(minimum, granularity) == (if rounded > usize::MAX {
            Err::<usize, Error>(Error::InvalidInput("minimum capacity is too large"))
        } else if rounded > 0x8000_0000_0000_0000 {
            Err::<usize, Error>(Error::InvalidInput("capacity exceeds 2^63"))
        } else {
            Ok::<usize, Error>(rounded as usize)
        }),
        is_pow2(granularity) ==> exists|power: int| #[trigger]
            rounds_to(minimum, granularity, power),
{
    if is_pow2(granularity) {
        assert(granularity > 0) by {
            reveal(is_pow2);
        }
        let least = if minimum >= granularity {
            minimum
        } else {
            granularity
        };
        lemma_rounding(minimum, granularity, least);
    }
}

/// On a Unix system a named ring may have every capacity that is a power of two, comes in whole
/// pages, can be mapped twice and is no larger than the largest one, where a page holds the
/// header; and each other capacity is refused for the first of these that it lacks.
pub proof fn law_whole_pages_are_named_capacities(capacity: int, page: int)
    requires
        0 <= page,
    ensures
        ({
            let fault = capacity_fault(capacity, page);
            let aligned = 0 < page <= capacity && capacity % page == 0;
            &&& fault is None <==> {
                &&& is_pow2(capacity)
                &&& aligned
                &&& capacity <= 0x8000_0000_0000_0000
                &&& capacity + capacity <= usize::MAX
                &&& HEADER_LEN <= page
            }
            &&& !is_pow2(capacity) ==> fault == Some(
                Error::InvalidLayout("capacity must be a nonzero power of two"),
            )
            &&& is_pow2(capacity) && !aligned ==> fault == Some(
                Error::InvalidLayout("capacity must be page aligned"),
            )
            &&& is_pow2(capacity) && aligned && capacity > 0x8000_0000_0000_0000 ==> fault == Some(
                Error::InvalidLayout("capacity exceeds 2^63"),
            )
            &&& is_pow2(capacity) && aligned && capacity <= 0x8000_0000_0000_0000 && capacity
                + capacity > usize::MAX ==> fault == Some(
                Error::InvalidLayout("double mapping length overflows"),
            )
            &&& is_pow2(capacity) && aligned && capacity <= 0x8000_0000_0000_0000 && capacity
                + capacity <= usize::MAX && page < HEADER_LEN ==> fault == Some(
                Error::PlatformInvariant("header exceeds one page"),
            )
        }),
{
}

/// Every minimum whose rounding can be mapped twice is laid out as a named ring with one page and
/// that capacity, on a Unix system and on Windows, where a page holds the header and its length
/// can be added to that.
pub proof fn law_named_minimums_are_laid_out(
    minimum: int,
    page: int,
    granularity: int,
    rounded: int,
    overflowing: &'static str,
)
    requires
        0 < minimum,
        is_pow2(granularity),
        rounds_to(minimum, granularity, rounded),
        rounded <= 0x8000_0000_0000_0000,
        rounded + rounded <= usize::MAX,
        HEADER_LEN <= page,
        page + rounded <= usize::MAX,
    ensures
        ({
            let capacity = capacity_outcome(minimum, granularity);
            let laid_out = Ok::<Layout, Error>(
                Layout {
                    page_size: page as usize,
                    capacity: rounded as usize,
                    shared_memory_len: (page + rounded) as u64,
                },
            );
            &&& layout_with(
                capacity,
                crate::mapping::section::capacity_fault(
                    capacity->Ok_0 as int,
                    page,
                    granularity,
                ),
                page,
                overflowing,
            ) == laid_out
            &&& page == granularity ==> layout_with(
                capacity,
                capacity_fault(capacity->Ok_0 as int, page),
                page,
                overflowing,
            ) == laid_out
        }),
{
    law_named_capacities_are_rounded_up(minimum, granularity, rounded);
    lemma_power_divides(granularity, rounded);
    assert(granularity > 0) by {
        reveal(is_pow2);
    }
}

/// What stops a layout is passed on: a refused capacity first, then what is wrong with it, then a
/// length that no `usize` holds.
pub proof fn law_refused_layouts_say_why(
    capacity: Result<usize, Error>,
    fault: Option<Error>,
    page: int,
    overflowing: &'static str,
)
    requires
        0 <= page <= usize::MAX,
    ensures
        layout_with(capacity, fault, page, overflowing) is Ok <==> capacity is Ok && fault is None
            && page + capacity->Ok_0 <= usize::MAX,
        capacity matches Err(error) ==> layout_with(capacity, fault, page, overflowing) == Err::<
            Layout,
            Error,
        >(error),
        capacity is Ok ==> (fault matches Some(error) ==> layout_with(
            capacity,
            fault,
            page,
            overflowing,
        ) == Err::<Layout, Error>(error)),
        capacity is Ok && fault is None && page + capacity->Ok_0 > usize::MAX ==> layout_with(
            capacity,
            fault,
            page,
            overflowing,
        ) == Err::<Layout, Error>(Error::InvalidInput(overflowing)),
{
}

/// An object is a named ring exactly where it is as long as its page and its payload together: a
/// shorter one and a longer one are both refused.
pub proof fn law_named_objects_have_no_trailing_bytes(size: int, page: int, capacity: int)
    ensures
        size_outcome(size, page, capacity) is Ok <==> size == page + capacity && size <= usize::MAX,
        page + capacity > usize::MAX ==> size_outcome(size, page, capacity) == Err::<(), Error>(
            Error::InvalidLayout("shared-memory object length overflows"),
        ),
        page + capacity <= usize::MAX && size != page + capacity ==> size_outcome(
            size,
            page,
            capacity,
        ) == Err::<(), Error>(
            Error::InvalidLayout("shared-memory object length does not match capacity"),
        ),
{
}

/// A header's declaration is used exactly where it is of this library's version, its capacity is
/// a `usize` and nothing is wrong with that capacity. What is used is what was declared.
pub proof fn law_declarations_are_taken_at_their_word(
    version: u64,
    capacity: u64,
    fault: Option<Error>,
)
    ensures
        usable(version, capacity, fault) is Ok <==> version == 1 && capacity <= usize::MAX
            && fault is None,
        usable(version, capacity, fault) matches Ok(used) ==> used == capacity,
        declared(version, capacity) is Ok <==> version == 1 && capacity <= usize::MAX,
        declared(version, capacity) matches Ok(used) ==> used == capacity,
        version != 1 ==> usable(version, capacity, fault) == Err::<usize, Error>(
            Error::UnsupportedVersion(version),
        ),
        version == 1 && capacity > usize::MAX ==> usable(version, capacity, fault) == Err::<
            usize,
            Error,
        >(Error::InvalidLayout("capacity exceeds usize")),
        version == 1 && capacity <= usize::MAX ==> (fault matches Some(error) ==> usable(
            version,
            capacity,
            fault,
        ) == Err::<usize, Error>(error)),
{
}

/// Attaching accepts every named ring that creating laid out, on a Unix system and on Windows.
pub proof fn law_created_named_rings_attach(
    minimum: int,
    page: int,
    granularity: int,
    overflowing: &'static str,
    view: usize,
)
    requires
        0 <= page,
    ensures
        ({
            let capacity = capacity_outcome(minimum, page);
            let layout = layout_with(
                capacity,
                capacity_fault(capacity->Ok_0 as int, page),
                page,
                overflowing,
            );
            layout matches Ok(layout) ==> {
                &&& usable(
                    ABI_VERSION,
                    layout.capacity as u64,
                    capacity_fault(layout.capacity as int, page),
                ) == Ok::<usize, Error>(layout.capacity)
                &&& size_outcome(layout.shared_memory_len as int, page, layout.capacity as int)
                    is Ok
            }
        }),
        ({
            let capacity = capacity_outcome(minimum, granularity);
            let layout = layout_with(
                capacity,
                crate::mapping::section::capacity_fault(
                    capacity->Ok_0 as int,
                    page,
                    granularity,
                ),
                page,
                overflowing,
            );
            layout matches Ok(layout) ==> {
                &&& usable(
                    ABI_VERSION,
                    layout.capacity as u64,
                    crate::mapping::section::capacity_fault(
                        layout.capacity as int,
                        page,
                        granularity,
                    ),
                ) == Ok::<usize, Error>(layout.capacity)
                &&& section_outcome(
                    SectionView {
                        view,
                        answered: true,
                        base: view,
                        allocation: view,
                        len: layout.shared_memory_len as usize,
                    },
                    page,
                    layout.capacity as int,
                ) is Ok
            }
        }),
{
}

/// Between two looks the wait is one millisecond, or what is left until the deadline where that
/// is less; and once the deadline has come there is none.
pub proof fn law_pauses_are_a_millisecond(deadline: u128, now: u128)
    ensures
        now + 1_000_000 <= deadline ==> wait_outcome(deadline, now) == Ok::<u128, Error>(1_000_000),
        now < deadline < now + 1_000_000 ==> (wait_outcome(deadline, now) matches Ok(pause) && now
            + pause == deadline),
        deadline <= now ==> wait_outcome(deadline, now) == Err::<u128, Error>(
            Error::InitializationTimedOut,
        ),
{
}

/// Only a missing object is waited for, and only until the deadline. Any other answer, a result
/// or an error, comes back as it was, however late it is.
pub proof fn law_only_missing_objects_are_waited_for<T>(
    deadline: u128,
    now: u128,
    attempt: Result<T, Error>,
)
    ensures
        retry_outcome(deadline, now, attempt) is Sleep <==> now < deadline && attempt is Err
            && attempt->Err_0.spec_kind() == ErrorKind::NotFound,
        retry_outcome(deadline, now, attempt) matches Retry::Sleep(pause) ==> 0 < pause && now
            + pause <= deadline,
        attempt is Ok || attempt->Err_0.spec_kind() != ErrorKind::NotFound ==> retry_outcome(
            deadline,
            now,
            attempt,
        ) == Retry::Return(attempt),
        attempt is Err && attempt->Err_0.spec_kind() == ErrorKind::NotFound && deadline <= now
            ==> retry_outcome(deadline, now, attempt) == Retry::Return(
            Err::<T, Error>(Error::InitializationTimedOut),
        ),
{
}

/// A header that has a version is taken at once, whatever the version and however late; one
/// without is waited for until the deadline.
pub proof fn law_versions_are_awaited(version: u64, deadline: u128, now: u128)
    ensures
        version != 0 ==> version_step(version, deadline, now) == Retry::Return(
            Ok::<u64, Error>(version),
        ),
        version == 0 && now < deadline ==> (version_step(version, deadline, now) matches Retry::Sleep(
            pause,
        ) && 0 < pause && now + pause <= deadline),
        version == 0 && deadline <= now ==> version_step(version, deadline, now) == Retry::Return(
            Err::<u64, Error>(Error::InitializationTimedOut),
        ),
{
}

/// An object that holds its header page is taken at once, however late; a shorter one is waited
/// for until the deadline, and one of a negative length is refused at once.
pub proof fn law_header_pages_are_awaited(size: i64, page: int, deadline: u128, now: u128)
    requires
        0 <= page,
    ensures
        page <= size ==> header_size_step(size, page, deadline, now) == Retry::Return(
            Ok::<(), Error>(()),
        ),
        size < 0 ==> header_size_step(size, page, deadline, now) == Retry::Return(
            Err::<(), Error>(
                Error::InvalidLayout("shared-memory object has a negative length"),
            ),
        ),
        0 <= size < page && now < deadline ==> (header_size_step(
            size,
            page,
            deadline,
            now,
        ) matches Retry::Sleep(pause) && 0 < pause && now + pause <= deadline),
        0 <= size < page && deadline <= now ==> header_size_step(size, page, deadline, now)
            == Retry::Return(Err::<(), Error>(Error::InitializationTimedOut)),
{
}

/// A name is valid exactly where it has between one and twenty bytes, each an ASCII letter or
/// digit, a hyphen, an underscore or a dot.
pub proof fn law_names_are_short_and_plain(name: Seq<char>)
    ensures
        valid_name(name) <==> {
            &&& 0 < encode_utf8(name).len() <= 20
            &&& forall|i: int|
                0 <= i < encode_utf8(name).len() ==> {
                    let byte = #[trigger] encode_utf8(name)[i] as char;
                    ||| 'a' <= byte <= 'z'
                    ||| 'A' <= byte <= 'Z'
                    ||| '0' <= byte <= '9'
                    ||| byte == '-'
                    ||| byte == '_'
                    ||| byte == '.'
                }
        },
{
    if name.len() > 0 {
        vstd::utf8::encode_utf8_decode_utf8(name);
    }
}

/// A result code carries a system error exactly where it lies among those of the system facility,
/// which count up from the error zero.
pub proof fn law_result_codes_count_up_from_the_facility(hresult: u32, error: int)
    ensures
        system_error(hresult) == Some(error) <==> 0 <= error < 0x1_0000 && hresult == 0x8007_0000
            + error,
        system_error(hresult) is None <==> hresult < 0x8007_0000 || hresult >= 0x8008_0000,
{
}

} // verus!

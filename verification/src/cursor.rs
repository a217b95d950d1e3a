//! Indexed byte cursors over stable storage.

use crate::error::{invalid_length, would_block, Error};
use crate::ring::position::{
    distance, offset, spec_distance, spec_offset, valid_capacity,
};
use crate::ring::membership::ReaderConnection;
use crate::ring::reader::{admitted, ReaderRegistry};
use vstd::prelude::*;

verus! {

/// A descriptor produced by a successful cursor reservation.
///
/// Constructing, copying, or moving this value does not reserve storage, extend
/// its validity, or access the bytes that it describes. `P` is how the first byte
/// is addressed: the cursors of this library use its index within the payload, and
/// a mapping turns that into a machine address.
#[derive(Clone, Copy, Debug)]
pub struct Reservation<P> {
    /// The wrapping logical position of the first byte.
    pub position: u64,
    /// The address of the first byte.
    pub ptr: P,
    /// The number of contiguous bytes beginning at `ptr`.
    pub len: usize,
}

/// What a waiting reservation does next.
#[derive(Clone, Copy, Debug)]
pub enum ReserveStep {
    /// The reservation is granted.
    Ready(Reservation<usize>),
    /// Nothing is available yet: wait for the peer, observe it, and try again.
    Wait,
}

/// What a cursor at `start` with `extent` bytes available answers to a request for
/// `minimum` bytes at `position`.
///
/// The request must end at most one capacity ahead of the cursor. A granted
/// reservation holds everything available from `position`, not only the minimum.
pub open spec fn reservation_at(
    capacity: int,
    start: u64,
    extent: Result<int, Error>,
    position: u64,
    minimum: int,
) -> Result<Reservation<usize>, Error> {
    let ahead = spec_distance(start, position);
    if ahead + minimum > capacity {
        Err(Error::InvalidLength)
    } else {
        match extent {
            Err(error) => Err(error),
            Ok(available) => if ahead + minimum > available {
                Err(Error::WouldBlock)
            } else {
                Ok(
                    Reservation {
                        position,
                        ptr: spec_offset(position, capacity) as usize,
                        len: (available - ahead) as usize,
                    },
                )
            },
        }
    }
}

/// What a waiting reservation makes of the answer to an immediate one: only an
/// unavailable extent is waited for.
pub open spec fn reserve_step(
    attempt: Result<Reservation<usize>, Error>,
) -> Result<ReserveStep, Error> {
    match attempt {
        Ok(reservation) => Ok(ReserveStep::Ready(reservation)),
        Err(error) => if error == Error::WouldBlock {
            Ok(ReserveStep::Wait)
        } else {
            Err(error)
        },
    }
}

/// What a cursor at `start` with `extent` bytes available answers to an advance to
/// `position`: the target must lie within the extent.
pub open spec fn advance_outcome(
    start: u64,
    extent: Result<int, Error>,
    position: u64,
) -> Result<(), Error> {
    match extent {
        Err(error) => Err(error),
        Ok(available) => if spec_distance(start, position) > available {
            Err(Error::InvalidLength)
        } else {
            Ok(())
        },
    }
}

/// Provides forward-moving indexed access to stable byte storage.
///
/// Unlike [`crate::view::CursorView`], reservations are not retained by the cursor, and
/// later reservations do not invalidate earlier reservations. Positions use
/// wrapping `u64` arithmetic and may be at most one cursor capacity ahead of
/// [`position`](Self::position).
///
/// A cursor decides by what it last observed of its peers, which they may have
/// moved past since. An observation that lags behind never grants more than the
/// peers' true positions would.
pub trait Cursor: Sized {
    /// Whether the cursor's own state is consistent.
    spec fn wf(&self) -> bool;

    /// The buffer capacity in bytes.
    spec fn spec_capacity(&self) -> int;

    /// The current published or released position.
    spec fn spec_position(&self) -> u64;

    /// How many bytes are available from the current position, by the cursor's last
    /// observation, or why there is no answer.
    spec fn extent(&self) -> Result<int, Error>;

    /// This cursor at another position: everything else about it stays.
    spec fn moved_to(&self, position: u64) -> Self;

    /// What is available never exceeds the capacity, which is a valid one.
    proof fn lemma_extent_is_bounded(&self)
        requires
            self.wf(),
        ensures
            valid_capacity(self.spec_capacity()),
            self.spec_capacity() <= usize::MAX,
            self.extent() matches Ok(available) ==> 0 <= available <= self.spec_capacity(),
    ;

    /// Returns the buffer capacity in bytes.
    fn capacity(&self) -> (capacity: usize)
        requires
            self.wf(),
        ensures
            capacity == self.spec_capacity(),
    ;

    /// Returns the current published or released cursor position.
    fn position(&self) -> (position: u64)
        requires
            self.wf(),
        ensures
            position == self.spec_position(),
    ;

    /// Immediately reserves at least `minimum` bytes beginning at `position`.
    ///
    /// A successful reservation returns all bytes currently available from
    /// `position`, not only the requested minimum. `WouldBlock` is returned
    /// when the requested end position is valid but not yet available.
    fn try_reserve_at(&mut self, position: u64, minimum: usize) -> (reservation: Result<
        Reservation<usize>,
        Error,
    >)
        requires
            old(self).wf(),
        ensures
            *final(self) == *old(self),
            reservation == reservation_at(
                old(self).spec_capacity(),
                old(self).spec_position(),
                old(self).extent(),
                position,
                minimum as int,
            ),
    ;

    /// Decides what a reservation that may wait does next: it is granted, it waits,
    /// or it fails.
    fn reserve_at(&mut self, position: u64, minimum: usize) -> (step: Result<ReserveStep, Error>)
        requires
            old(self).wf(),
        ensures
            *final(self) == *old(self),
            step == reserve_step(
                reservation_at(
                    old(self).spec_capacity(),
                    old(self).spec_position(),
                    old(self).extent(),
                    position,
                    minimum as int,
                ),
            ),
    ;

    /// Commits or retires every byte before `position`.
    ///
    /// The target must be forward and within the currently available extent.
    fn advance_to(&mut self, position: u64) -> (outcome: Result<(), Error>)
        requires
            old(self).wf(),
        ensures
            final(self).wf(),
            outcome == advance_outcome(
                old(self).spec_position(),
                old(self).extent(),
                position,
            ),
            outcome is Err ==> *final(self) == *old(self),
            final(self).spec_capacity() == old(self).spec_capacity(),
            outcome is Ok ==> {
                &&& *final(self) == old(self).moved_to(position)
                &&& final(self).spec_position() == position
                &&& final(self).extent() is Ok
                &&& final(self).extent()->Ok_0 >= old(self).extent()->Ok_0 - spec_distance(
                    old(self).spec_position(),
                    position,
                )
            },
    ;
}

/// Marks a cursor that can create an independent cursor at its current position.
///
/// A fork begins at the source cursor's current logical position, as a reader of its
/// own in a slot that was free. Advancing or retiring either cursor does not change the
/// other. Both observe the same future input.
///
/// Forking is fallible because it takes a reader slot. Types that cannot provide
/// independent cursors do not implement this trait.
pub trait TryFork: Cursor {
    /// The reader that this cursor is of its ring.
    spec fn reader(&self) -> ReaderConnection;

    /// Creates an independent cursor beginning at this cursor's current position, as a
    /// new reader of the ring that `registry` belongs to, if the ring still exists.
    fn try_fork(&self, registry: Option<&mut ReaderRegistry>) -> (fork: Result<Self, Error>)
        requires
            self.wf(),
            registry matches Some(ring) ==> ring.wf() && ring.members.issued() < u64::MAX,
        ensures
            match registry {
                None => fork matches Err(error) && error == Error::PeerDisconnected,
                Some(ring) => {
                    &&& final(ring).wf()
                    &&& fork is Ok <==> ring.members.has_room()
                    &&& match fork {
                        Ok(fork) => {
                            &&& fork.wf()
                            &&& fork.spec_capacity() == self.spec_capacity()
                            &&& fork.spec_position() == self.spec_position()
                            &&& fork.extent() == self.extent()
                            &&& admitted(
                                *ring,
                                self.spec_position(),
                                fork.reader(),
                                *final(ring),
                            )
                        },
                        Err(error) => {
                            &&& error == Error::ReaderCapacityExhausted
                            &&& *final(ring) == *ring
                        },
                    }
                },
            },
    ;
}

/// Marks a cursor whose reservations may be changed in place.
///
/// No reader can reach the bytes that such a cursor has reserved.
pub trait CursorMut: Cursor {

}

/// Answers a request for `minimum` bytes at `position` of a cursor at `start` with
/// `extent` bytes available.
pub fn reserve_within(
    capacity: usize,
    start: u64,
    extent: Result<usize, Error>,
    position: u64,
    minimum: usize,
) -> (reservation: Result<Reservation<usize>, Error>)
    requires
        valid_capacity(capacity as int),
        extent matches Ok(available) ==> available <= capacity,
    ensures
        reservation == reservation_at(
            capacity as int,
            start,
            widened(extent),
            position,
            minimum as int,
        ),
{
    proof {
        crate::ring::position::lemma_capacity_divides_positions(capacity as int);
    }
    let ahead: u64 = distance(start, position);
    if ahead > capacity as u64 || minimum > capacity - ahead as usize {
        return Err(invalid_length());
    }
    let available: usize = match extent {
        Ok(available) => available,
        Err(error) => return Err(error),
    };
    let needed: usize = ahead as usize + minimum;
    if needed > available {
        return Err(would_block());
    }
    Ok(
        Reservation {
            position,
            ptr: offset(position, capacity),
            len: available - ahead as usize,
        },
    )
}

/// An extent as the specifications speak of it.
pub open spec fn widened(extent: Result<usize, Error>) -> Result<int, Error> {
    match extent {
        Ok(available) => Ok(available as int),
        Err(error) => Err(error),
    }
}

/// Decides whether a cursor at `start` with `extent` bytes available may advance to
/// `position`.
pub fn advance_within(start: u64, extent: Result<usize, Error>, position: u64) -> (outcome: Result<
    (),
    Error,
>)
    ensures
        outcome == advance_outcome(start, widened(extent), position),
{
    let available: usize = match extent {
        Ok(available) => available,
        Err(error) => return Err(error),
    };
    if distance(start, position) > available as u64 {
        Err(invalid_length())
    } else {
        Ok(())
    }
}

/// Decides what a waiting reservation makes of an immediate attempt.
pub fn step_after(attempt: Result<Reservation<usize>, Error>) -> (step: Result<ReserveStep, Error>)
    ensures
        step == reserve_step(attempt),
{
    match attempt {
        Ok(reservation) => Ok(ReserveStep::Ready(reservation)),
        Err(Error::WouldBlock) => Ok(ReserveStep::Wait),
        Err(error) => Err(error),
    }
}

/// Whatever is available is granted, up to a whole capacity ahead of the cursor: a request that
/// ends within the available bytes gets all of them from its position on, at the position's
/// place in the payload.
pub proof fn law_available_bytes_are_granted(
    capacity: int,
    start: u64,
    available: int,
    ahead: int,
    position: u64,
    minimum: int,
)
    requires
        0 <= available <= capacity <= usize::MAX,
        0 < capacity,
        0 <= ahead,
        0 <= minimum,
        ahead + minimum <= available,
        position == (start + ahead) % 0x1_0000_0000_0000_0000,
    ensures
        reservation_at(capacity, start, Ok(available), position, minimum) matches Ok(granted) && {
            &&& granted.position == position
            &&& granted.ptr == position as int % capacity
            &&& granted.len == available - ahead
        },
{
    assert(spec_distance(start, position) == ahead);
    vstd::arithmetic::div_mod::lemma_mod_bound(position as int, capacity);
}

/// Why a request is refused: it ends more than a capacity ahead of the cursor, whatever is
/// available; or the cursor has no extent, whose reason is passed on; or it ends beyond what is
/// available, which only blocks it for now.
pub proof fn law_requests_are_refused_for_a_reason(
    capacity: int,
    start: u64,
    extent: Result<int, Error>,
    ahead: int,
    position: u64,
    minimum: int,
)
    requires
        0 <= capacity <= usize::MAX,
        0 <= ahead < 0x1_0000_0000_0000_0000,
        0 <= minimum,
        position == (start + ahead) % 0x1_0000_0000_0000_0000,
    ensures
        ({
            let attempt = reservation_at(capacity, start, extent, position, minimum);
            &&& ahead + minimum > capacity ==> attempt == Err::<Reservation<usize>, Error>(
                Error::InvalidLength,
            )
            &&& ahead + minimum <= capacity ==> (extent matches Err(error) ==> attempt == Err::<
                Reservation<usize>,
                Error,
            >(error))
            &&& ahead + minimum <= capacity ==> (extent matches Ok(available) ==> (available < ahead
                + minimum <==> attempt == Err::<Reservation<usize>, Error>(Error::WouldBlock)))
            &&& ahead + minimum <= capacity && extent is Ok && extent->Ok_0 >= ahead + minimum
                ==> attempt is Ok
        }),
{
    assert(spec_distance(start, position) == ahead);
}

/// A reservation waits exactly where its request is a valid one and its peer has yet to make
/// room for it. It is ready with what an immediate one grants, and it fails at once where
/// waiting would not help: on an invalid request, and on a cursor without an extent, such as
/// one whose peer is gone.
pub proof fn law_only_unavailable_bytes_are_waited_for(
    capacity: int,
    start: u64,
    extent: Result<int, Error>,
    ahead: int,
    position: u64,
    minimum: int,
)
    requires
        0 < capacity <= usize::MAX,
        0 <= ahead < 0x1_0000_0000_0000_0000,
        0 <= minimum,
        position == (start + ahead) % 0x1_0000_0000_0000_0000,
        extent matches Ok(available) ==> 0 <= available <= capacity,
        extent != Err::<int, Error>(Error::WouldBlock),
    ensures
        ({
            let step = reserve_step(reservation_at(capacity, start, extent, position, minimum));
            &&& step == Ok::<ReserveStep, Error>(ReserveStep::Wait) <==> {
                &&& ahead + minimum <= capacity
                &&& extent is Ok
                &&& extent->Ok_0 < ahead + minimum
            }
            &&& extent matches Ok(available) ==> (ahead + minimum <= available ==> {
                &&& step is Ok
                &&& step->Ok_0 matches ReserveStep::Ready(granted) && {
                    &&& granted.position == position
                    &&& granted.ptr == position as int % capacity
                    &&& granted.len == available - ahead
                }
            })
            &&& ahead + minimum > capacity ==> step == Err::<ReserveStep, Error>(
                Error::InvalidLength,
            )
            &&& ahead + minimum <= capacity ==> (extent matches Err(error) ==> step == Err::<
                ReserveStep,
                Error,
            >(error))
        }),
{
    assert(spec_distance(start, position) == ahead);
    vstd::arithmetic::div_mod::lemma_mod_bound(position as int, capacity);
}

/// A waiting reservation makes nothing of its own of an immediate one: what was granted stays
/// granted, a refusal that waiting cannot mend stays that refusal, and only a blocked attempt
/// is repeated.
pub proof fn law_waiting_changes_no_answer(attempt: Result<Reservation<usize>, Error>)
    ensures
        attempt matches Ok(granted) ==> reserve_step(attempt) == Ok::<ReserveStep, Error>(
            ReserveStep::Ready(granted),
        ),
        attempt matches Err(error) ==> (error !is WouldBlock ==> reserve_step(attempt) == Err::<
            ReserveStep,
            Error,
        >(error)),
        reserve_step(attempt) == Ok::<ReserveStep, Error>(ReserveStep::Wait) <==> attempt is Err
            && attempt->Err_0 is WouldBlock,
{
}

/// A cursor may advance over every available byte, and over no other: to a position `ahead`
/// bytes away exactly where so many are available.
pub proof fn law_available_bytes_may_be_passed(
    start: u64,
    extent: Result<int, Error>,
    ahead: int,
    position: u64,
)
    requires
        0 <= ahead < 0x1_0000_0000_0000_0000,
        position == (start + ahead) % 0x1_0000_0000_0000_0000,
    ensures
        advance_outcome(start, extent, position) is Ok <==> extent is Ok && ahead
            <= extent->Ok_0,
        extent matches Ok(available) ==> (available < ahead ==> advance_outcome(
            start,
            extent,
            position,
        ) == Err::<(), Error>(Error::InvalidLength)),
        extent matches Err(error) ==> advance_outcome(start, extent, position) == Err::<(), Error>(
            error,
        ),
{
    assert(spec_distance(start, position) == ahead);
}

/// What a cursor grants it lets itself be advanced over: to every position from its own up to
/// the end of the granted bytes, and to none beyond.
pub proof fn law_granted_bytes_may_be_passed(
    capacity: int,
    start: u64,
    extent: Result<int, Error>,
    ahead: int,
    position: u64,
    minimum: int,
    amount: int,
    target: u64,
)
    requires
        0 < capacity <= usize::MAX,
        extent matches Ok(available) ==> 0 <= available <= capacity,
        0 <= ahead < 0x1_0000_0000_0000_0000,
        0 <= minimum,
        position == (start + ahead) % 0x1_0000_0000_0000_0000,
        reservation_at(capacity, start, extent, position, minimum) is Ok,
        0 <= amount < 0x1_0000_0000_0000_0000,
        target == (start + amount) % 0x1_0000_0000_0000_0000,
    ensures
        advance_outcome(start, extent, target) is Ok <==> amount <= ahead + reservation_at(
            capacity,
            start,
            extent,
            position,
            minimum,
        )->Ok_0.len,
{
    assert(spec_distance(start, position) == ahead);
    assert(spec_distance(start, target) == amount);
}

} // verus!

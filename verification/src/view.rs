//! Views that retain one reservation of a cursor.

use crate::cursor::{advance_outcome, reservation_at, Cursor, Reservation};
use crate::error::{invalid_length, Error};
use crate::ring::position::{advanced, wrapped};
use vstd::prelude::*;

verus! {

/// A cursor with the one reservation that it retains.
#[derive(Debug)]
pub struct CursorView<C> {
    pub cursor: C,
    pub reservation: Option<Reservation<usize>>,
}

/// How many bytes a view retains.
pub open spec fn retained(reservation: Option<Reservation<usize>>) -> int {
    match reservation {
        Some(reservation) => reservation.len as int,
        None => 0,
    }
}

impl<C: Cursor> CursorView<C> {
    /// Returns a view of `cursor` that retains nothing.
    pub fn from_cursor(cursor: C) -> (view: Self)
        ensures
            view.cursor == cursor,
            view.reservation is None,
    {
        CursorView { cursor, reservation: None }
    }

    /// Returns the buffer capacity in bytes.
    pub fn capacity(&self) -> (capacity: usize)
        requires
            self.cursor.wf(),
        ensures
            capacity == self.cursor.spec_capacity(),
    {
        self.cursor.capacity()
    }

    /// Immediately reserves at least `minimum` bytes at the cursor, and retains everything
    /// available there. A reservation that fails leaves the view as it was.
    pub fn try_reserve(&mut self, minimum: usize) -> (outcome: Result<(), Error>)
        requires
            old(self).cursor.wf(),
        ensures
            final(self).cursor == old(self).cursor,
            match reservation_at(
                old(self).cursor.spec_capacity(),
                old(self).cursor.spec_position(),
                old(self).cursor.extent(),
                old(self).cursor.spec_position(),
                minimum as int,
            ) {
                Ok(reservation) => {
                    &&& outcome is Ok
                    &&& final(self).reservation == Some(reservation)
                },
                Err(error) => {
                    &&& outcome == Err::<(), Error>(error)
                    &&& final(self).reservation == old(self).reservation
                },
            },
    {
        let position: u64 = self.cursor.position();
        match self.cursor.try_reserve_at(position, minimum) {
            Ok(reservation) => {
                self.reservation = Some(reservation);
                Ok(())
            },
            Err(error) => Err(error),
        }
    }

    /// Advances the cursor by `amount` retained bytes. The reservation is given up once the
    /// cursor has moved past its start.
    pub fn advance(&mut self, amount: usize) -> (outcome: Result<(), Error>)
        requires
            old(self).cursor.wf(),
        ensures
            final(self).cursor.wf(),
            final(self).cursor.spec_capacity() == old(self).cursor.spec_capacity(),
            ({
                let position = wrapped(old(self).cursor.spec_position() + amount);
                let advance = advance_outcome(
                    old(self).cursor.spec_position(),
                    old(self).cursor.extent(),
                    position,
                );
                if amount > retained(old(self).reservation) {
                    &&& outcome == Err::<(), Error>(Error::InvalidLength)
                    &&& *final(self) == *old(self)
                } else if advance is Err {
                    &&& outcome == advance
                    &&& *final(self) == *old(self)
                } else {
                    &&& outcome is Ok
                    &&& final(self).cursor == old(self).cursor.moved_to(position)
                    &&& final(self).cursor.spec_position() == position
                    &&& final(self).cursor.extent() is Ok
                    &&& final(self).cursor.extent()->Ok_0 >= old(self).cursor.extent()->Ok_0
                        - amount
                    &&& final(self).reservation == (if amount == 0 {
                        old(self).reservation
                    } else {
                        None
                    })
                }
            }),
    {
        let held: usize = match &self.reservation {
            Some(reservation) => reservation.len,
            None => 0,
        };
        if amount > held {
            return Err(invalid_length());
        }
        let target: u64 = advanced(self.cursor.position(), amount as u64);
        match self.cursor.advance_to(target) {
            Ok(()) => {
                if amount > 0 {
                    self.reservation = None;
                }
                Ok(())
            },
            Err(error) => Err(error),
        }
    }
}

/// A view retains all that its cursor has available, and may then advance over every byte of it:
/// what a reservation at the cursor grants is what an advance from there accepts.
pub proof fn law_views_pass_what_they_retain<C: Cursor>(
    view: CursorView<C>,
    minimum: int,
    amount: int,
)
    requires
        view.cursor.wf(),
        0 <= minimum,
        view.cursor.extent() matches Ok(available) && minimum <= available,
    ensures
        ({
            let attempt = reservation_at(
                view.cursor.spec_capacity(),
                view.cursor.spec_position(),
                view.cursor.extent(),
                view.cursor.spec_position(),
                minimum,
            );
            &&& attempt is Ok
            &&& retained(Some(attempt->Ok_0)) == view.cursor.extent()->Ok_0
            &&& 0 <= amount <= retained(Some(attempt->Ok_0)) ==> advance_outcome(
                view.cursor.spec_position(),
                view.cursor.extent(),
                wrapped(view.cursor.spec_position() + amount),
            ) is Ok
        }),
        retained(None) == 0,
{
    view.cursor.lemma_extent_is_bounded();
    crate::ring::position::lemma_capacity_divides_positions(view.cursor.spec_capacity());
    crate::cursor::law_available_bytes_are_granted(
        view.cursor.spec_capacity(),
        view.cursor.spec_position(),
        view.cursor.extent()->Ok_0,
        0,
        view.cursor.spec_position(),
        minimum,
    );
    if 0 <= amount <= view.cursor.extent()->Ok_0 {
        crate::cursor::law_available_bytes_may_be_passed(
            view.cursor.spec_position(),
            view.cursor.extent(),
            amount,
            wrapped(view.cursor.spec_position() + amount),
        );
    }
}

} // verus!

//! A ring's memory: its header, and its payload as both of its views show it.

use crate::cursor::Reservation;
use crate::mapping::Layout;
use crate::ring::header::Header;
use crate::ring::position::valid_capacity;
use crate::ring::ABI_VERSION;
use vstd::prelude::*;

verus! {

/// The `len` bytes that a payload shows from index `start` on, where the payload is
/// mapped twice in a row: index `i` shows the byte at `i` modulo the capacity.
pub open spec fn shown(payload: Seq<u8>, start: int, len: int) -> Seq<u8> {
    Seq::new(len as nat, |i: int| payload[(start + i) % (payload.len() as int)])
}

/// A payload after `data` was written from index `start` on, through the same two views.
pub open spec fn overwritten(payload: Seq<u8>, start: int, data: Seq<u8>) -> Seq<u8> {
    Seq::new(
        payload.len(),
        |index: int|
            {
                let reached = (index - start) % (payload.len() as int);
                if reached < data.len() {
                    data[reached]
                } else {
                    payload[index]
                }
            },
    )
}

/// The memory of one ring.
#[derive(Debug)]
pub struct MappedMemory {
    pub header: Header,
    pub payload: Vec<u8>,
}

impl MappedMemory {
    /// The length of the payload.
    pub open spec fn spec_capacity(&self) -> int {
        self.payload@.len() as int
    }

    /// The payload has a valid capacity.
    pub open spec fn wf(&self) -> bool {
        &&& valid_capacity(self.spec_capacity())
        &&& 0 < self.spec_capacity() <= usize::MAX
    }

    /// The header is published, and nothing else has happened yet: no byte was published or
    /// released, nobody waits, and the payload is zeroed.
    pub open spec fn fresh(&self) -> bool {
        &&& self.payload@ == Seq::new(self.payload@.len(), |i: int| 0u8)
        &&& self.header.version == ABI_VERSION
        &&& self.header.capacity == self.spec_capacity()
        &&& self.header.write_position == 0
        &&& self.header.data_waiters == 0
        &&& self.header.space_waiters == 0
        &&& forall|slot: int|
            0 <= slot < 64 ==> #[trigger] self.header.read_positions@[slot] == 0
    }

    /// Allocates the memory of a ring with `layout`, with a published header and a
    /// zeroed payload.
    pub fn create(layout: &Layout) -> (memory: Self)
        requires
            layout.wf(),
        ensures
            memory.wf(),
            memory.spec_capacity() == layout.capacity,
            memory.fresh(),
    {
        proof {
            layout.lemma_capacity();
        }
        let mut header = Header::new(layout.capacity);
        header.publish();
        let memory = MappedMemory { header, payload: vec![0u8;layout.capacity] };
        assert(memory.payload@ =~= Seq::new(memory.payload@.len(), |i: int| 0u8));
        memory
    }

    /// Returns the length of the payload.
    pub fn capacity(&self) -> (capacity: usize)
        ensures
            capacity == self.spec_capacity(),
    {
        self.payload.len()
    }

    /// Returns the bytes of a reservation.
    pub fn view(&self, reservation: &Reservation<usize>) -> (bytes: Vec<u8>)
        requires
            self.wf(),
            reservation.ptr < self.spec_capacity(),
            reservation.len <= self.spec_capacity(),
        ensures
            bytes@ == shown(self.payload@, reservation.ptr as int, reservation.len as int),
    {
        let capacity: usize = self.payload.len();
        let mut bytes: Vec<u8> = Vec::new();
        let mut index: usize = reservation.ptr;
        let mut taken: usize = 0;
        proof {
            vstd::arithmetic::div_mod::lemma_small_mod(index as nat, capacity as nat);
        }
        while taken < reservation.len
            invariant
                capacity == self.payload@.len(),
                index < capacity,
                taken <= reservation.len <= capacity,
                index == (reservation.ptr + taken) % (capacity as int),
                bytes@ == shown(self.payload@, reservation.ptr as int, taken as int),
            decreases reservation.len - taken,
        {
            bytes.push(self.payload[index]);
            assert(bytes@ =~= shown(self.payload@, reservation.ptr as int, taken + 1));
            proof {
                lemma_next_index(reservation.ptr + taken, capacity as int);
            }
            index = if index + 1 == capacity {
                0
            } else {
                index + 1
            };
            taken = taken + 1;
        }
        bytes
    }

    /// Writes `data` at the start of a reservation.
    pub fn fill(&mut self, reservation: &Reservation<usize>, data: &[u8])
        requires
            old(self).wf(),
            reservation.ptr < old(self).spec_capacity(),
            reservation.len <= old(self).spec_capacity(),
            data@.len() <= reservation.len,
        ensures
            final(self).wf(),
            final(self).header == old(self).header,
            final(self).payload@ == overwritten(
                old(self).payload@,
                reservation.ptr as int,
                data@,
            ),
    {
        let capacity: usize = self.payload.len();
        let mut index: usize = reservation.ptr;
        let mut written: usize = 0;
        proof {
            vstd::arithmetic::div_mod::lemma_small_mod(index as nat, capacity as nat);
        }
        assert(self.payload@ =~= overwritten(
            old(self).payload@,
            reservation.ptr as int,
            data@.take(0),
        ));
        while written < data.len()
            invariant
                capacity == self.payload@.len() == old(self).payload@.len(),
                self.header == old(self).header,
                index < capacity,
                reservation.ptr < capacity,
                written <= data@.len() <= reservation.len <= capacity,
                index == (reservation.ptr + written) % (capacity as int),
                self.payload@ == overwritten(
                    old(self).payload@,
                    reservation.ptr as int,
                    data@.take(written as int),
                ),
            decreases data@.len() - written,
        {
            proof {
                lemma_one_more(
                    old(self).payload@,
                    reservation.ptr as int,
                    data@,
                    written as int,
                    index as int,
                );
                lemma_next_index(reservation.ptr + written, capacity as int);
            }
            self.payload.set(index, data[written]);
            index = if index + 1 == capacity {
                0
            } else {
                index + 1
            };
            written = written + 1;
        }
        assert(data@.take(data@.len() as int) =~= data@);
    }
}

/// The index after the one that `reached` stands for.
proof fn lemma_next_index(reached: int, capacity: int)
    requires
        0 < capacity,
        0 <= reached,
    ensures
        (reached + 1) % capacity == (if reached % capacity + 1 == capacity {
            0
        } else {
            reached % capacity + 1
        }),
{
    vstd::arithmetic::div_mod::lemma_add_mod_noop(reached, 1, capacity);
    if capacity == 1 {
        assert((reached + 1) % 1 == 0);
    } else {
        vstd::arithmetic::div_mod::lemma_small_mod(1, capacity as nat);
        vstd::arithmetic::div_mod::lemma_mod_bound(reached, capacity);
        if reached % capacity + 1 == capacity {
            vstd::arithmetic::div_mod::lemma_mod_self_0(capacity);
        } else {
            vstd::arithmetic::div_mod::lemma_small_mod(
                (reached % capacity + 1) as nat,
                capacity as nat,
            );
        }
    }
}

/// Writing one more byte of `data`.
proof fn lemma_one_more(payload: Seq<u8>, start: int, data: Seq<u8>, written: int, index: int)
    requires
        0 <= start < payload.len(),
        0 <= written < data.len() <= payload.len(),
        index == (start + written) % (payload.len() as int),
    ensures
        overwritten(payload, start, data.take(written + 1)) == overwritten(
            payload,
            start,
            data.take(written),
        ).update(index, data[written]),
{
    let capacity = payload.len() as int;
    let more = overwritten(payload, start, data.take(written + 1));
    let less = overwritten(payload, start, data.take(written));
    assert forall|at: int| 0 <= at < capacity implies #[trigger] more[at] == less.update(
        index,
        data[written],
    )[at] by {
        lemma_reached_is_unique(start, written, at, capacity);
    }
    assert(more =~= less.update(index, data[written]));
}

/// Within one capacity, each index is reached once.
pub proof fn lemma_reached_is_unique(start: int, step: int, index: int, capacity: int)
    requires
        0 <= start,
        0 <= index < capacity,
        0 <= step < capacity,
    ensures
        (index - start) % capacity == step <==> index == (start + step) % capacity,
{
    let reached = (index - start) % capacity;
    vstd::arithmetic::div_mod::lemma_mod_bound(index - start, capacity);
    if reached == step {
        vstd::arithmetic::div_mod::lemma_add_mod_noop_right(start, index - start, capacity);
        assert((start + reached) % capacity == index % capacity);
        vstd::arithmetic::div_mod::lemma_small_mod(index as nat, capacity as nat);
    }
    if index == (start + step) % capacity {
        vstd::arithmetic::div_mod::lemma_sub_mod_noop(start + step, start, capacity);
        vstd::arithmetic::div_mod::lemma_sub_mod_noop(index, start, capacity);
        vstd::arithmetic::div_mod::lemma_small_mod(index as nat, capacity as nat);
        vstd::arithmetic::div_mod::lemma_small_mod(step as nat, capacity as nat);
        assert((start + step - start) % capacity == step);
    }
}

/// What is written through the two views is what they show, wrapped or not.
pub proof fn law_memory_shows_what_was_written(payload: Seq<u8>, start: int, data: Seq<u8>)
    requires
        0 <= start,
        0 < payload.len(),
        data.len() <= payload.len(),
    ensures
        shown(overwritten(payload, start, data), start, data.len() as int) == data,
{
    let capacity = payload.len() as int;
    assert forall|i: int| 0 <= i < data.len() implies #[trigger] shown(
        overwritten(payload, start, data),
        start,
        data.len() as int,
    )[i] == data[i] by {
        let index = (start + i) % capacity;
        vstd::arithmetic::div_mod::lemma_mod_bound(start + i, capacity);
        lemma_reached_is_unique(start, i, index, capacity);
    }
    assert(shown(overwritten(payload, start, data), start, data.len() as int) =~= data);
}

/// Writing changes only the bytes that it reaches, from its start on and around the end.
pub proof fn law_writing_keeps_the_rest(payload: Seq<u8>, start: int, data: Seq<u8>, index: int)
    requires
        0 <= start,
        data.len() <= payload.len(),
        0 <= index < payload.len(),
        forall|i: int|
            0 <= i < data.len() ==> #[trigger] reached_by(start, i, payload.len() as int) != index,
    ensures
        overwritten(payload, start, data).len() == payload.len(),
        overwritten(payload, start, data)[index] == payload[index],
{
    let capacity = payload.len() as int;
    let step = (index - start) % capacity;
    vstd::arithmetic::div_mod::lemma_mod_bound(index - start, capacity);
    lemma_reached_is_unique(start, step, index, capacity);
    assert(reached_by(start, step, capacity) == index);
}

/// The index that byte number `step` of something at `start` lives at.
pub open spec fn reached_by(start: int, step: int, capacity: int) -> int {
    (start + step) % capacity
}

/// The two views show the payload in order: what lies before its end as it is, and then the
/// payload from its beginning again.
pub proof fn law_views_show_the_payload_in_order(payload: Seq<u8>, start: int, len: int)
    requires
        0 <= start < payload.len(),
        0 <= len <= payload.len(),
    ensures
        start + len <= payload.len() ==> shown(payload, start, len) == payload.subrange(
            start,
            start + len,
        ),
        start + len > payload.len() ==> shown(payload, start, len) == payload.subrange(
            start,
            payload.len() as int,
        ) + payload.subrange(0, start + len - payload.len()),
{
    let capacity = payload.len() as int;
    assert forall|i: int| 0 <= i < len implies #[trigger] shown(payload, start, len)[i] == (if start
        + i < capacity {
        payload[start + i]
    } else {
        payload[start + i - capacity]
    }) by {
        if start + i < capacity {
            vstd::arithmetic::div_mod::lemma_small_mod((start + i) as nat, capacity as nat);
        } else {
            vstd::arithmetic::div_mod::lemma_mod_sub_multiples_vanish(start + i, capacity);
            vstd::arithmetic::div_mod::lemma_small_mod(
                (start + i - capacity) as nat,
                capacity as nat,
            );
        }
    }
    if start + len <= capacity {
        assert(shown(payload, start, len) =~= payload.subrange(start, start + len));
    } else {
        assert(shown(payload, start, len) =~= payload.subrange(start, capacity)
            + payload.subrange(0, start + len - capacity));
    }
}

} // verus!

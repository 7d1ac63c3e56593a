//! The chunk list: one active buffer and the buffers that were filled before it.

use vstd::prelude::*;
use crate::model::{ChunkListView, Slot, next_capacity, oldest_first, truncated};

verus! {

/// Storage for values of one type: the buffer that values are placed into,
/// and the buffers that were filled earlier, most recently filled first.
///
/// `capacity` is the number of values the active buffer takes before it is
/// archived and replaced.
pub struct ChunkList<T> {
    pub current: Vec<T>,
    pub rest: Vec<Vec<T>>,
    pub capacity: usize,
}

/// Cuts `buffer` down to `len` values by dropping its last value until no
/// more than `len` are left.
pub fn truncate_to<T>(buffer: &mut Vec<T>, len: usize)
    ensures
        final(buffer)@ == truncated(old(buffer)@, len as nat),
{
    while buffer.len() > len
        invariant
            buffer@.len() <= old(buffer)@.len(),
            buffer@ == old(buffer)@.take(buffer@.len() as int),
            len <= buffer@.len() || buffer@.len() == old(buffer)@.len(),
        decreases buffer@.len(),
    {
        buffer.pop();
    }
    assert(old(buffer)@.take(old(buffer)@.len() as int) == old(buffer)@);
}

impl<T> ChunkList<T> {
    pub open spec fn rest_view(&self) -> Seq<Seq<T>> {
        Seq::new(self.rest@.len(), |i: int| self.rest@[i]@)
    }

    pub open spec fn view(&self) -> ChunkListView<T> {
        ChunkListView {
            current: self.current@,
            rest: self.rest_view(),
            capacity: self.capacity as nat,
        }
    }

    pub open spec fn wf(&self) -> bool {
        self@.wf()
    }

    /// An empty chunk list whose first buffer takes `capacity` values, and one
    /// value where `capacity` is zero.
    pub fn with_capacity(capacity: usize) -> (chunks: Self)
        ensures
            chunks@ == ChunkListView::<T>::empty(if capacity == 0 { 1 } else { capacity as nat }),
            chunks.wf(),
    {
        let capacity: usize = if capacity == 0 { 1 } else { capacity };
        let chunks = ChunkList { current: Vec::new(), rest: Vec::new(), capacity };
        assert(chunks.rest_view() =~= Seq::<Seq<T>>::empty());
        chunks
    }

    /// A chunk list that starts out with `buffer` as its active buffer.
    pub fn from_buffer(buffer: Vec<T>, capacity: usize) -> (chunks: Self)
        ensures
            chunks@ == (ChunkListView { current: buffer@, rest: Seq::empty(), capacity: capacity as nat }),
    {
        let chunks = ChunkList { current: buffer, rest: Vec::new(), capacity };
        assert(chunks.rest_view() =~= Seq::<Seq<T>>::empty());
        chunks
    }

    /// Archives the active buffer and starts a fresh one of twice the capacity.
    pub fn archive_current_and_grow(&mut self)
        ensures
            final(self)@ == old(self)@.archive_current_and_grow(),
    {
        let mut filled: Vec<T> = Vec::new();
        core::mem::swap(&mut filled, &mut self.current);
        self.rest.insert(0, filled);
        self.capacity = if self.capacity <= usize::MAX / 2 {
            2 * self.capacity
        } else {
            usize::MAX
        };
        assert(self.rest_view() =~= seq![old(self).current@] + old(self).rest_view());
    }

    /// Places `value` in the active buffer, growing first where the buffer is
    /// full, and returns the slot the value now has.
    pub fn place(&mut self, value: T) -> (slot: Slot)
        ensures
            final(self)@ == old(self)@.place(value),
            old(self).wf() ==> final(self).wf(),
            slot == old(self)@.next_slot(),
            (slot.chunk as nat, slot.index as nat) == old(self)@.next_place(),
            final(self)@.lookup(slot) == Some(value),
    {
        if self.current.len() >= self.capacity {
            self.archive_current_and_grow();
        }
        let slot = Slot { chunk: self.rest.len(), index: self.current.len() };
        self.current.push(value);
        slot
    }

    /// The value stored at `slot`, if there is one.
    pub fn get(&self, slot: Slot) -> (found: Option<&T>)
        ensures
            match found {
                Some(value) => self@.lookup(slot) == Some(*value),
                None => self@.lookup(slot) is None,
            },
    {
        let archived = self.rest.len();
        if slot.chunk < archived {
            let chunk = &self.rest[archived - 1 - slot.chunk];
            if slot.index < chunk.len() {
                Some(&chunk[slot.index])
            } else {
                None
            }
        } else if slot.chunk == archived && slot.index < self.current.len() {
            Some(&self.current[slot.index])
        } else {
            None
        }
    }

    /// Takes the active buffer out and leaves an empty one in its place.
    pub fn take_current(&mut self) -> (buffer: Vec<T>)
        ensures
            buffer@ == old(self)@.current,
            final(self)@ == old(self)@.without_current(),
    {
        let mut buffer: Vec<T> = Vec::new();
        core::mem::swap(&mut buffer, &mut self.current);
        assert(self.rest_view() =~= old(self).rest_view());
        buffer
    }

    /// Makes `buffer` the active buffer and returns the one it replaces.
    pub fn replace_current(&mut self, buffer: Vec<T>) -> (previous: Vec<T>)
        ensures
            previous@ == old(self)@.current,
            final(self)@ == old(self)@.with_current(buffer@),
    {
        let mut buffer = buffer;
        core::mem::swap(&mut buffer, &mut self.current);
        assert(self.rest_view() =~= old(self).rest_view());
        buffer
    }

    /// Takes out the buffer that was active when this chunk list was created:
    /// the first archived buffer if any buffer was archived since, else the
    /// active one. An empty buffer is left in its place.
    pub fn take_boundary_buffer(&mut self) -> (buffer: Vec<T>)
        ensures
            buffer@ == old(self)@.boundary_buffer(),
            final(self)@ == old(self)@.without_boundary_buffer(),
    {
        let mut buffer: Vec<T> = Vec::new();
        let archived = self.rest.len();
        if archived > 0 {
            core::mem::swap(&mut buffer, &mut self.rest[archived - 1]);
            assert(self.rest_view() =~= old(self).rest_view().update(
                archived - 1,
                Seq::<T>::empty(),
            ));
        } else {
            core::mem::swap(&mut buffer, &mut self.current);
            assert(self.rest_view() =~= old(self).rest_view());
        }
        buffer
    }

    /// Every stored value, in the order the values were placed.
    pub fn into_vec(self) -> (values: Vec<T>)
        ensures
            values@ == self@.contents(),
    {
        let ChunkList { current, rest, capacity: _ } = self;
        let mut rest = rest;
        let mut current = current;
        let mut values: Vec<T> = Vec::new();
        let ghost archived = self.rest_view();
        proof {
            assert(archived.take(rest@.len() as int) =~= archived);
            assert(values@ + oldest_first(archived) =~= oldest_first(archived));
        }
        while rest.len() > 0
            invariant
                rest@.len() <= archived.len(),
                forall|i: int| 0 <= i < rest@.len() ==> rest@[i]@ == archived[i],
                values@ + oldest_first(archived.take(rest@.len() as int)) == oldest_first(archived),
            decreases rest@.len(),
        {
            let ghost before = archived.take(rest@.len() as int);
            let mut chunk = rest.pop().unwrap();
            proof {
                assert(before.drop_last() =~= archived.take(rest@.len() as int));
                assert(values@ + (before.last() + oldest_first(before.drop_last()))
                    =~= (values@ + chunk@) + oldest_first(before.drop_last()));
            }
            values.append(&mut chunk);
        }
        proof {
            assert(archived.take(0) =~= Seq::<Seq<T>>::empty());
            assert(values@ + Seq::<T>::empty() =~= values@);
        }
        values.append(&mut current);
        values
    }
}

} // verus!

//! The allocator: a chunk list behind a flag that grants one borrower at a
//! time exclusive access to it.

use vstd::prelude::*;
use crate::chunks::ChunkList;
use crate::error::BorrowConflict;
use crate::model::{ArenaView, Slot};

verus! {

/// The number of values that the first buffer of [`Arena::new`] takes.
pub const INITIAL_CAPACITY: usize = 1024;

/// An allocator that owns every value placed in it until it is destroyed.
///
/// Its chunk list can be checked out with [`Arena::borrow_storage`]. While
/// it is checked out the allocator refuses to place values and refuses a
/// second borrower.
pub struct Arena<T> {
    chunks: ChunkList<T>,
    borrowed: bool,
}

/// Exclusive access to the chunk list of an [`Arena`].
///
/// The allocator counts as borrowed until [`ExclusiveHandle::release`] is
/// called. A handle that is dropped without that call leaves the allocator
/// borrowed for good.
pub struct ExclusiveHandle<'a, T> {
    pub cell: &'a mut Arena<T>,
}

impl<T> Arena<T> {
    pub closed spec fn view(&self) -> ArenaView<T> {
        ArenaView { chunks: self.chunks@, borrowed: self.borrowed }
    }

    pub open spec fn wf(&self) -> bool {
        self@.wf()
    }

    /// A fresh allocator whose first buffer takes [`INITIAL_CAPACITY`] values.
    pub fn new() -> (arena: Self)
        ensures
            arena@ == ArenaView::<T>::empty(INITIAL_CAPACITY as nat),
            arena.wf(),
    {
        Arena { chunks: ChunkList::with_capacity(INITIAL_CAPACITY), borrowed: false }
    }

    /// A fresh allocator whose first buffer takes `capacity` values, and one
    /// value where `capacity` is zero.
    pub fn with_capacity(capacity: usize) -> (arena: Self)
        ensures
            arena@ == ArenaView::<T>::empty(if capacity == 0 { 1 } else { capacity as nat }),
            arena.wf(),
    {
        Arena { chunks: ChunkList::with_capacity(capacity), borrowed: false }
    }

    /// An allocator that starts out with `buffer` as its active buffer.
    pub(crate) fn from_buffer(buffer: Vec<T>, capacity: usize) -> (arena: Self)
        ensures
            arena@ == ArenaView::adopt(buffer@, capacity as nat),
    {
        Arena { chunks: ChunkList::from_buffer(buffer, capacity), borrowed: false }
    }

    /// Whether the chunk list is checked out.
    pub fn is_borrowed(&self) -> (borrowed: bool)
        ensures
            borrowed == self@.borrowed,
    {
        self.borrowed
    }

    /// Places `value` and returns its slot. Fails, and leaves the allocator
    /// as it is, exactly when the chunk list is checked out.
    pub fn place(&mut self, value: T) -> (placed: Result<Slot, BorrowConflict>)
        ensures
            old(self).wf() ==> final(self).wf(),
            final(self)@ == old(self)@.place(value),
            old(self)@.borrowed ==> placed == Err::<Slot, BorrowConflict>(BorrowConflict),
            !old(self)@.borrowed ==> placed == Ok::<Slot, BorrowConflict>(
                old(self)@.chunks.next_slot(),
            ) && final(self)@.chunks.lookup(old(self)@.chunks.next_slot()) == Some(value),
            placed matches Ok(slot) ==> (slot.chunk as nat, slot.index as nat) == old(
                self,
            )@.chunks.next_place(),
    {
        if self.borrowed {
            Err(BorrowConflict)
        } else {
            Ok(self.chunks.place(value))
        }
    }

    /// The value stored at `slot`, if there is one. While a scope holds the
    /// active buffer, the values in that buffer are found through the scope
    /// and not here.
    pub fn get(&self, slot: Slot) -> (found: Option<&T>)
        ensures
            match found {
                Some(value) => self@.chunks.lookup(slot) == Some(*value),
                None => self@.chunks.lookup(slot) is None,
            },
    {
        self.chunks.get(slot)
    }

    /// Every stored value, in the order the values were placed.
    pub fn into_vec(self) -> (values: Vec<T>)
        ensures
            values@ == self@.chunks.contents(),
    {
        self.chunks.into_vec()
    }

    /// Gives up the allocator for its chunk list.
    pub(crate) fn into_chunks(self) -> (chunks: ChunkList<T>)
        ensures
            chunks@ == self@.chunks,
    {
        self.chunks
    }

    /// Checks the chunk list out. Fails, and leaves the allocator as it is,
    /// exactly when the chunk list is checked out already.
    pub fn borrow_storage<'a>(&'a mut self) -> (borrowing: Result<ExclusiveHandle<'a, T>, BorrowConflict>)
        ensures
            borrowing is Err <==> old(self)@.borrowed,
            borrowing is Err ==> *final(self) == *old(self),
            borrowing matches Ok(handle) ==> handle.now() == old(self)@.lent()
                && *final(handle.cell) == *final(self),
    {
        if self.borrowed {
            Err(BorrowConflict)
        } else {
            self.borrowed = true;
            Ok(ExclusiveHandle { cell: self })
        }
    }
}

impl<'a, T> ExclusiveHandle<'a, T> {
    /// The borrowed allocator as it stands now.
    pub open spec fn now(&self) -> ArenaView<T> {
        (*self.cell)@
    }

    /// The capacity of the borrowed allocator's active buffer.
    pub fn capacity(&self) -> (capacity: usize)
        ensures
            capacity == self.now().chunks.capacity,
    {
        self.cell.chunks.capacity
    }

    /// Takes the active buffer out of the borrowed allocator and leaves an
    /// empty one in its place.
    pub fn take_current_buffer(&mut self) -> (buffer: Vec<T>)
        ensures
            buffer@ == old(self).now().chunks.current,
            final(self).now() == old(self).now().without_current(),
            *final(final(self).cell) == *final(old(self).cell),
    {
        self.cell.chunks.take_current()
    }

    /// Makes `buffer` the active buffer of the borrowed allocator and
    /// returns the one it replaces.
    pub fn replace_current_buffer(&mut self, buffer: Vec<T>) -> (previous: Vec<T>)
        ensures
            previous@ == old(self).now().chunks.current,
            final(self).now() == old(self).now().with_current(buffer@),
            *final(final(self).cell) == *final(old(self).cell),
    {
        self.cell.chunks.replace_current(buffer)
    }

    /// Hands the chunk list back: the allocator is left as the handle last
    /// saw it, and can be borrowed again.
    pub fn release(self)
        ensures
            (*final(self.cell))@ == self.now().released(),
    {
        let handle = self;
        handle.cell.borrowed = false;
    }
}

} // verus!

//! Scoped sub-arenas: allocate into a parent's active buffer for a while,
//! then hand the buffer back as it was.

use vstd::prelude::*;
use crate::arena::{Arena, ExclusiveHandle};
use crate::chunks::truncate_to;
use crate::error::BorrowConflict;
use crate::model::{ScopeView, Slot};

verus! {

/// A scoped sub-arena.
///
/// It holds the exclusive borrow of its parent for as long as it lives, and
/// allocates into the buffer that was the parent's active buffer when the
/// scope began. [`SubArena::finish`] destroys what the scope placed and
/// gives the parent its buffer back. A sub-arena that is dropped without
/// being finished leaves its parent borrowed for good.
///
/// `boundary` is the length the taken buffer had when the scope began:
/// values below it belong to the parent, values from it on to the scope.
///
/// The fields are public so that contracts can speak of the parent behind
/// the borrow. They are meant to be changed through the methods only.
pub struct SubArena<'a, T> {
    pub inner: Arena<T>,
    pub parent_borrow: ExclusiveHandle<'a, T>,
    pub boundary: usize,
}

/// The first half of opening a scope: the parent is borrowed, its buffer
/// not yet taken.
///
/// [`SubArenaBuilder::new`] followed by [`SubArenaBuilder::build`] does what
/// [`SubArena::new`] does in one step.
pub struct SubArenaBuilder<'a, T> {
    pub data: ExclusiveHandle<'a, T>,
}

impl<'a, T> SubArenaBuilder<'a, T> {
    /// Borrows `arena` for a scope that [`SubArenaBuilder::build`] will open.
    /// Fails, and leaves `arena` as it is, exactly when `arena` is borrowed
    /// already.
    pub fn new(arena: &'a mut Arena<T>) -> (borrowing: Result<Self, BorrowConflict>)
        ensures
            borrowing is Err <==> old(arena)@.borrowed,
            borrowing is Err ==> *final(arena) == *old(arena),
            borrowing matches Ok(builder) ==> builder.data.now() == old(arena)@.lent()
                && *final(builder.data.cell) == *final(arena),
    {
        match arena.borrow_storage() {
            Ok(data) => Ok(SubArenaBuilder { data }),
            Err(conflict) => Err(conflict),
        }
    }

    /// Opens the scope on the borrowed parent.
    pub fn build(self) -> (sub: SubArena<'a, T>)
        ensures
            sub@ == ScopeView::from_chunks(self.data.now()),
            self.data.now().wf() && self.data.now().borrowed ==> sub.wf(),
            *final(sub.parent_borrow.cell) == *final(self.data.cell),
    {
        SubArena::from_chunks(self.data)
    }
}

impl<'a, T> SubArena<'a, T> {
    pub open spec fn view(&self) -> ScopeView<T> {
        ScopeView {
            inner: self.inner@,
            parent: self.parent_borrow.now(),
            boundary: self.boundary as nat,
        }
    }

    pub open spec fn wf(&self) -> bool {
        self@.wf()
    }

    /// Opens a scope with `arena` as its parent. Fails, and leaves `arena` as
    /// it is, exactly when `arena` is borrowed already.
    pub fn new(arena: &'a mut Arena<T>) -> (opening: Result<Self, BorrowConflict>)
        ensures
            opening is Err <==> old(arena)@.borrowed,
            opening is Err ==> *final(arena) == *old(arena),
            opening matches Ok(sub) ==> sub@ == ScopeView::open(old(arena)@) && (old(arena).wf()
                ==> sub.wf()) && *final(sub.parent_borrow.cell) == *final(arena),
    {
        match arena.borrow_storage() {
            Ok(parent_borrow) => Ok(Self::from_chunks(parent_borrow)),
            Err(conflict) => Err(conflict),
        }
    }

    /// Opens a scope on a parent that is borrowed through `parent_borrow`:
    /// takes the parent's active buffer, leaves an empty one behind, and
    /// starts a fresh allocator on the taken buffer.
    pub fn from_chunks(parent_borrow: ExclusiveHandle<'a, T>) -> (sub: Self)
        ensures
            sub@ == ScopeView::from_chunks(parent_borrow.now()),
            parent_borrow.now().wf() && parent_borrow.now().borrowed ==> sub.wf(),
            *final(sub.parent_borrow.cell) == *final(parent_borrow.cell),
    {
        let mut parent_borrow = parent_borrow;
        let taken = parent_borrow.take_current_buffer();
        let boundary = taken.len();
        let inner = Arena::from_buffer(taken, parent_borrow.capacity());
        SubArena { inner, parent_borrow, boundary }
    }

    /// The length the taken buffer had when the scope began.
    pub fn boundary(&self) -> (boundary: usize)
        ensures
            boundary == self@.boundary,
    {
        self.boundary
    }

    /// Places `value` in the scope and returns its slot in the scope's
    /// allocator. Fails, and leaves the scope as it is, exactly when the
    /// scope's allocator is itself borrowed.
    pub fn place(&mut self, value: T) -> (placed: Result<Slot, BorrowConflict>)
        ensures
            final(self)@ == old(self)@.place(value),
            old(self).wf() ==> final(self).wf() && final(self)@.pre_scope() == old(
                self,
            )@.pre_scope(),
            old(self).wf() ==> (placed matches Ok(slot) ==> slot.chunk >= 1 || slot.index >= old(
                self,
            ).boundary),
            old(self)@.inner.borrowed ==> placed == Err::<Slot, BorrowConflict>(BorrowConflict),
            !old(self)@.inner.borrowed ==> placed == Ok::<Slot, BorrowConflict>(
                old(self)@.inner.chunks.next_slot(),
            ) && final(self)@.inner.chunks.lookup(old(self)@.inner.chunks.next_slot()) == Some(
                value,
            ),
            *final(final(self).parent_borrow.cell) == *final(old(self).parent_borrow.cell),
    {
        self.inner.place(value)
    }

    /// The scope's allocator, to open a nested scope on or to place values in.
    ///
    /// The scope stays well formed as long as the allocator is only placed
    /// into and every scope opened on it is finished.
    pub fn arena_mut(&mut self) -> (inner: &mut Arena<T>)
        ensures
            inner@ == old(self)@.inner,
            final(self)@ == old(self)@.with_inner(final(inner)@),
            *final(final(self).parent_borrow.cell) == *final(old(self).parent_borrow.cell),
    {
        &mut self.inner
    }

    /// Ends the scope: the taken buffer is cut back to the boundary, which
    /// destroys every value the scope placed in it, and becomes the parent's
    /// active buffer again; the parent can be borrowed again; the buffers
    /// that the scope filled after the taken one are destroyed whole.
    pub fn finish(self)
        ensures
            (*final(self.parent_borrow.cell))@ == self@.close(),
            self.wf() ==> self@.close().wf(),
    {
        let SubArena { inner, parent_borrow, boundary } = self;
        let mut chunks = inner.into_chunks();
        let mut stolen = chunks.take_boundary_buffer();
        truncate_to(&mut stolen, boundary);
        let mut parent_borrow = parent_borrow;
        parent_borrow.replace_current_buffer(stolen);
        parent_borrow.release();
    }
}

impl<'a, T> core::ops::Deref for SubArena<'a, T> {
    type Target = Arena<T>;

    /// The scope's allocator, to read from.
    fn deref(&self) -> (inner: &Arena<T>)
        ensures
            inner@ == self@.inner,
    {
        &self.inner
    }
}

} // verus!

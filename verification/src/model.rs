//! Mathematical models of the storage, the allocator and a scope.

use vstd::prelude::*;

verus! {

/// The place of one value inside an allocator: the chunk it lives in, counted
/// from the first chunk that allocator ever filled, and its index in that chunk.
///
/// A slot stays meaningful for as long as the value it names is stored: chunks
/// are never renumbered and values never move inside a chunk.
#[derive(Clone, Copy, Debug, PartialEq, Eq, Structural)]
pub struct Slot {
    pub chunk: usize,
    pub index: usize,
}

/// What a chunk list holds: the active buffer, the archived buffers with the
/// most recently filled one first, and the number of values the active buffer
/// may take before it is archived.
pub struct ChunkListView<T> {
    pub current: Seq<T>,
    pub rest: Seq<Seq<T>>,
    pub capacity: nat,
}

/// What an allocator holds: its chunk list and whether that chunk list is
/// checked out to an exclusive borrower.
pub struct ArenaView<T> {
    pub chunks: ChunkListView<T>,
    pub borrowed: bool,
}

/// A live scope: the allocator it allocates into, the parent as it stands
/// while the scope holds it, and the length the active buffer had when the
/// scope took it.
pub struct ScopeView<T> {
    pub inner: ArenaView<T>,
    pub parent: ArenaView<T>,
    pub boundary: nat,
}

/// The capacity of the buffer that follows one of capacity `capacity`:
/// twice as much, or the largest machine size where that does not fit.
pub open spec fn next_capacity(capacity: nat) -> nat {
    if capacity <= usize::MAX / 2 {
        2 * capacity
    } else {
        usize::MAX as nat
    }
}

/// `buffer` cut down to `len` values; a buffer that is already shorter stays as it is.
pub open spec fn truncated<T>(buffer: Seq<T>, len: nat) -> Seq<T> {
    if len <= buffer.len() {
        buffer.take(len as int)
    } else {
        buffer
    }
}

/// The values of archived buffers in the order they were placed: `rest` holds
/// the most recently filled buffer first, so its last entry comes first.
pub open spec fn oldest_first<T>(rest: Seq<Seq<T>>) -> Seq<T>
    decreases rest.len(),
{
    if rest.len() == 0 {
        Seq::empty()
    } else {
        rest.last() + oldest_first(rest.drop_last())
    }
}

impl<T> ChunkListView<T> {
    /// An empty chunk list whose first buffer takes `capacity` values.
    pub open spec fn empty(capacity: nat) -> Self {
        ChunkListView { current: Seq::empty(), rest: Seq::empty(), capacity }
    }

    /// The active buffer is within its capacity, and the capacity is not zero.
    pub open spec fn wf(self) -> bool {
        &&& 1 <= self.capacity
        &&& self.current.len() <= self.capacity
    }

    /// The active buffer has no room left.
    pub open spec fn is_full(self) -> bool {
        self.current.len() >= self.capacity
    }

    /// The active buffer moves to the front of the archive and a fresh, larger
    /// one takes its place.
    pub open spec fn archive_current_and_grow(self) -> Self {
        ChunkListView {
            current: Seq::empty(),
            rest: seq![self.current] + self.rest,
            capacity: next_capacity(self.capacity),
        }
    }

    /// The chunk list that the next value is pushed onto: this one, or the
    /// grown one where the active buffer is full.
    pub open spec fn with_room(self) -> Self {
        if self.is_full() {
            self.archive_current_and_grow()
        } else {
            self
        }
    }

    /// The chunk list after `value` was placed.
    pub open spec fn place(self, value: T) -> Self {
        let roomy = self.with_room();
        ChunkListView { current: roomy.current.push(value), ..roomy }
    }

    /// The chunk and the index that the next placed value gets.
    pub open spec fn next_place(self) -> (nat, nat) {
        let roomy = self.with_room();
        (roomy.rest.len(), roomy.current.len())
    }

    /// The slot that the next placed value gets.
    pub open spec fn next_slot(self) -> Slot {
        Slot { chunk: self.next_place().0 as usize, index: self.next_place().1 as usize }
    }

    /// The value stored at index `index` of chunk number `chunk`, if there is
    /// one. Chunks are numbered in the order they were started, so the
    /// archived buffers come first, last entry of `rest` first, and the
    /// active buffer comes last.
    pub open spec fn lookup_at(self, chunk: int, index: int) -> Option<T> {
        if 0 <= chunk < self.rest.len() {
            let buffer = self.rest[self.rest.len() - 1 - chunk];
            if 0 <= index < buffer.len() {
                Some(buffer[index])
            } else {
                None
            }
        } else if chunk == self.rest.len() && 0 <= index < self.current.len() {
            Some(self.current[index])
        } else {
            None
        }
    }

    /// The value stored at `slot`, if there is one.
    pub open spec fn lookup(self, slot: Slot) -> Option<T> {
        self.lookup_at(slot.chunk as int, slot.index as int)
    }

    /// Every stored value, in the order the values were placed.
    pub open spec fn contents(self) -> Seq<T> {
        oldest_first(self.rest) + self.current
    }

    /// The buffer that was active when this chunk list was created: the first
    /// archived buffer if any buffer was archived since, else the active one.
    pub open spec fn boundary_buffer(self) -> Seq<T> {
        if self.rest.len() > 0 {
            self.rest.last()
        } else {
            self.current
        }
    }

    /// The chunk list with its boundary buffer taken out and an empty one left behind.
    pub open spec fn without_boundary_buffer(self) -> Self {
        if self.rest.len() > 0 {
            ChunkListView { rest: self.rest.update(self.rest.len() - 1, Seq::empty()), ..self }
        } else {
            self.without_current()
        }
    }

    /// The chunk list with its active buffer taken out and an empty one left behind.
    pub open spec fn without_current(self) -> Self {
        ChunkListView { current: Seq::empty(), ..self }
    }

    /// The chunk list with `buffer` as its active buffer.
    pub open spec fn with_current(self, buffer: Seq<T>) -> Self {
        ChunkListView { current: buffer, ..self }
    }
}

impl<T> ArenaView<T> {
    /// A fresh allocator whose first buffer takes `capacity` values.
    pub open spec fn empty(capacity: nat) -> Self {
        ArenaView { chunks: ChunkListView::empty(capacity), borrowed: false }
    }

    /// An allocator that starts out with `buffer` as its active buffer.
    pub open spec fn adopt(buffer: Seq<T>, capacity: nat) -> Self {
        ArenaView {
            chunks: ChunkListView { current: buffer, rest: Seq::empty(), capacity },
            borrowed: false,
        }
    }

    pub open spec fn wf(self) -> bool {
        self.chunks.wf()
    }

    /// The allocator after `value` was placed. A borrowed allocator refuses
    /// the value and stays as it is.
    pub open spec fn place(self, value: T) -> Self {
        if self.borrowed {
            self
        } else {
            ArenaView { chunks: self.chunks.place(value), ..self }
        }
    }

    /// The allocator after each of `values` was placed, first to last.
    pub open spec fn place_all(self, values: Seq<T>) -> Self
        decreases values.len(),
    {
        if values.len() == 0 {
            self
        } else {
            self.place_all(values.drop_last()).place(values.last())
        }
    }

    /// The allocator with its chunk list checked out.
    pub open spec fn lent(self) -> Self {
        ArenaView { borrowed: true, ..self }
    }

    /// The allocator with its chunk list handed back.
    pub open spec fn released(self) -> Self {
        ArenaView { borrowed: false, ..self }
    }

    pub open spec fn without_current(self) -> Self {
        ArenaView { chunks: self.chunks.without_current(), ..self }
    }

    pub open spec fn with_current(self, buffer: Seq<T>) -> Self {
        ArenaView { chunks: self.chunks.with_current(buffer), ..self }
    }
}

impl<T> ScopeView<T> {
    /// The scope that takes over the active buffer of a checked-out parent.
    pub open spec fn from_chunks(lent: ArenaView<T>) -> Self {
        ScopeView {
            inner: ArenaView::adopt(lent.chunks.current, lent.chunks.capacity),
            parent: lent.without_current(),
            boundary: lent.chunks.current.len(),
        }
    }

    /// The scope opened on `parent`: the parent is checked out, then its
    /// active buffer is taken over.
    pub open spec fn open(parent: ArenaView<T>) -> Self {
        Self::from_chunks(parent.lent())
    }

    /// The parent is checked out, and the buffer that was taken from it still
    /// holds at least the values it was taken with.
    pub open spec fn wf(self) -> bool {
        &&& self.inner.wf()
        &&& self.parent.wf()
        &&& self.parent.borrowed
        &&& self.boundary <= self.inner.chunks.boundary_buffer().len()
        &&& self.boundary <= self.parent.chunks.capacity
    }

    /// The values that the parent's active buffer held when the scope began.
    pub open spec fn pre_scope(self) -> Seq<T> {
        truncated(self.inner.chunks.boundary_buffer(), self.boundary)
    }

    pub open spec fn with_inner(self, inner: ArenaView<T>) -> Self {
        ScopeView { inner, ..self }
    }

    /// The scope after `value` was placed in it.
    pub open spec fn place(self, value: T) -> Self {
        self.with_inner(self.inner.place(value))
    }

    /// The scope after each of `values` was placed in it, first to last.
    pub open spec fn place_all(self, values: Seq<T>) -> Self
        decreases values.len(),
    {
        if values.len() == 0 {
            self
        } else {
            self.place_all(values.drop_last()).place(values.last())
        }
    }

    /// The parent once the scope is finished: its active buffer is the taken
    /// buffer cut back to the boundary, its archive is as it was, and it can
    /// be borrowed again.
    pub open spec fn close(self) -> ArenaView<T> {
        self.parent.with_current(self.pre_scope()).released()
    }
}

} // verus!

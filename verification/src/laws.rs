//! What the scope mechanism guarantees, proved over the models that the
//! contracts of the executable functions speak of.

use vstd::prelude::*;
use crate::model::{ArenaView, ChunkListView, ScopeView, Slot, oldest_first};

verus! {

/// The base allocator after a chain of nested scopes was opened on it and
/// finished again, innermost first. Scope number `i` of the chain places the
/// values `placed[i]` and then becomes the parent of scope number `i + 1`.
pub open spec fn after_nested_scopes<T>(base: ArenaView<T>, placed: Seq<Seq<T>>) -> ArenaView<T>
    decreases placed.len(),
{
    if placed.len() == 0 {
        base
    } else {
        let scope = ScopeView::open(base).place_all(placed.first());
        scope.with_inner(after_nested_scopes(scope.inner, placed.drop_first())).close()
    }
}

/// Archiving a buffer puts its values behind those of every buffer archived
/// before it.
pub proof fn lemma_archived_buffer_comes_last<T>(buffer: Seq<T>, rest: Seq<Seq<T>>)
    ensures
        oldest_first(seq![buffer] + rest) == oldest_first(rest) + buffer,
    decreases rest.len(),
{
    let grown = seq![buffer] + rest;
    if rest.len() == 0 {
        reveal_with_fuel(oldest_first, 2);
        assert(grown.drop_last() =~= Seq::<Seq<T>>::empty());
        assert(oldest_first(grown) =~= buffer);
        assert(oldest_first(rest) + buffer =~= buffer);
    } else {
        lemma_archived_buffer_comes_last(buffer, rest.drop_last());
        assert(grown.drop_last() =~= seq![buffer] + rest.drop_last());
        assert(grown.last() == rest.last());
        assert(rest.last() + (oldest_first(rest.drop_last()) + buffer) =~= (rest.last()
            + oldest_first(rest.drop_last())) + buffer);
    }
}

/// A placed value comes last in the contents, whether or not placing it made
/// the chunk list grow, and everything placed before stays where it was.
pub proof fn lemma_place_appends<T>(chunks: ChunkListView<T>, value: T)
    ensures
        chunks.place(value).contents() == chunks.contents().push(value),
{
    if chunks.is_full() {
        lemma_archived_buffer_comes_last(chunks.current, chunks.rest);
        assert(chunks.place(value).contents() =~= chunks.contents().push(value));
    } else {
        assert(chunks.place(value).contents() =~= chunks.contents().push(value));
    }
}

/// Slots are stable: a value that is stored stays at its chunk and index,
/// unchanged, when another value is placed, whether or not that makes the
/// chunk list grow.
pub proof fn law_placed_values_stay_put<T>(
    chunks: ChunkListView<T>,
    value: T,
    chunk: int,
    index: int,
)
    requires
        chunks.lookup_at(chunk, index) is Some,
    ensures
        chunks.place(value).lookup_at(chunk, index) == chunks.lookup_at(chunk, index),
{
}

/// Placing values in an allocator that is not borrowed appends them to its
/// contents in the order given, and leaves it well formed and not borrowed.
pub proof fn lemma_place_all_appends<T>(arena: ArenaView<T>, values: Seq<T>)
    requires
        arena.wf(),
        !arena.borrowed,
    ensures
        arena.place_all(values).wf(),
        !arena.place_all(values).borrowed,
        arena.place_all(values).chunks.contents() == arena.chunks.contents() + values,
    decreases values.len(),
{
    if values.len() == 0 {
        assert(arena.chunks.contents() + values =~= arena.chunks.contents());
    } else {
        lemma_place_all_appends(arena, values.drop_last());
        let before = arena.place_all(values.drop_last());
        lemma_place_appends(before.chunks, values.last());
        assert((arena.chunks.contents() + values.drop_last()).push(values.last())
            =~= arena.chunks.contents() + values);
    }
}

/// Whatever a live scope places, it stays well formed, its parent and its
/// boundary stay as they are, and the values it took over from its parent
/// stay in place.
pub proof fn lemma_scope_keeps_what_it_took<T>(scope: ScopeView<T>, values: Seq<T>)
    requires
        scope.wf(),
    ensures
        scope.place_all(values).wf(),
        scope.place_all(values).parent == scope.parent,
        scope.place_all(values).boundary == scope.boundary,
        scope.place_all(values).pre_scope() == scope.pre_scope(),
        scope.place_all(values).inner == scope.inner.place_all(values),
    decreases values.len(),
{
    if values.len() > 0 {
        lemma_scope_keeps_what_it_took(scope, values.drop_last());
    }
}

/// A scope that places nothing and is finished leaves its parent exactly as
/// it was before the scope was opened.
pub proof fn law_empty_scope_changes_nothing<T>(parent: ArenaView<T>)
    requires
        parent.wf(),
        !parent.borrowed,
    ensures
        ScopeView::open(parent).wf(),
        ScopeView::open(parent).close() == parent,
{
    let scope = ScopeView::open(parent);
    assert(scope.pre_scope() =~= parent.chunks.current);
    assert(scope.close().chunks == parent.chunks);
}

/// Scope isolation: whatever a scope places, finishing it leaves the parent
/// exactly as it was before the scope was opened. Every slot therefore
/// resolves in the parent after the scope as it did before: a value placed
/// before the scope is still found, unchanged, at its slot, and no slot
/// leads to a value placed during the scope.
pub proof fn law_scope_isolation<T>(parent: ArenaView<T>, values: Seq<T>)
    requires
        parent.wf(),
        !parent.borrowed,
    ensures
        ScopeView::open(parent).place_all(values).wf(),
        ScopeView::open(parent).place_all(values).close() == parent,
        forall|slot: Slot|
            ScopeView::open(parent).place_all(values).close().chunks.lookup(slot)
                == parent.chunks.lookup(slot),
{
    law_empty_scope_changes_nothing(parent);
    lemma_scope_keeps_what_it_took(ScopeView::open(parent), values);
}

/// Every slot that a live scope hands out lies past the boundary: in the
/// buffer it took over, at an index from the boundary on, or in a buffer
/// that the scope started itself.
pub proof fn law_scope_slots_lie_past_the_boundary<T>(scope: ScopeView<T>)
    requires
        scope.wf(),
    ensures
        scope.inner.chunks.next_place().0 >= 1 || scope.inner.chunks.next_place().1
            >= scope.boundary,
{
}

/// What a scope placed cannot be reached once the scope is finished. The
/// scope's first chunk is the parent's active one, so chunk `chunk` of the
/// scope is chunk `parent.chunks.rest.len() + chunk` of the parent; a place
/// past the boundary, read in the parent after the scope, holds no value.
pub proof fn law_scope_values_are_gone<T>(
    parent: ArenaView<T>,
    values: Seq<T>,
    chunk: int,
    index: int,
)
    requires
        parent.wf(),
        !parent.borrowed,
        0 <= chunk,
        0 <= index,
        chunk >= 1 || index >= ScopeView::open(parent).boundary,
    ensures
        ScopeView::open(parent).place_all(values).close().chunks.lookup_at(
            parent.chunks.rest.len() + chunk,
            index,
        ) is None,
{
    law_scope_isolation(parent, values);
}

/// Exclusivity: for as long as a scope lives, its parent is borrowed, so the
/// parent refuses to place a value and refuses a second scope; once the
/// scope is finished the parent is not borrowed, so both succeed again.
pub proof fn law_exclusivity<T>(parent: ArenaView<T>, values: Seq<T>, value: T)
    requires
        parent.wf(),
        !parent.borrowed,
    ensures
        ScopeView::open(parent).place_all(values).parent.borrowed,
        ScopeView::open(parent).place_all(values).parent.place(value) == ScopeView::open(
            parent,
        ).place_all(values).parent,
        !ScopeView::open(parent).place_all(values).close().borrowed,
{
    lemma_scope_keeps_what_it_took(ScopeView::open(parent), values);
}

/// Overflow correctness: a scope holds the values it took over followed by
/// the values it placed, however many buffers it had to archive to hold
/// them; finishing it leaves the parent with the contents it had before the
/// scope, no value fewer and no value more.
pub proof fn law_overflow_correctness<T>(parent: ArenaView<T>, values: Seq<T>)
    requires
        parent.wf(),
        !parent.borrowed,
    ensures
        ScopeView::open(parent).place_all(values).inner.chunks.contents()
            == parent.chunks.current + values,
        ScopeView::open(parent).place_all(values).pre_scope() == parent.chunks.current,
        ScopeView::open(parent).place_all(values).close().chunks.contents()
            == parent.chunks.contents(),
{
    let scope = ScopeView::open(parent);
    law_scope_isolation(parent, values);
    lemma_scope_keeps_what_it_took(scope, values);
    lemma_place_all_appends(scope.inner, values);
    assert(scope.inner.chunks.contents() =~= parent.chunks.current);
    assert(scope.pre_scope() =~= parent.chunks.current);
}

/// Nesting symmetry: a chain of nested scopes, each placing any number of
/// values before the next one is opened on it, leaves the base allocator
/// exactly as it was before the first scope once all of them are finished,
/// innermost first. Values placed in the base outside any scope are part of
/// what it was and are kept.
pub proof fn law_nesting_symmetry<T>(base: ArenaView<T>, placed: Seq<Seq<T>>)
    requires
        base.wf(),
        !base.borrowed,
    ensures
        after_nested_scopes(base, placed) == base,
    decreases placed.len(),
{
    if placed.len() > 0 {
        let scope = ScopeView::open(base).place_all(placed.first());
        law_scope_isolation(base, placed.first());
        lemma_scope_keeps_what_it_took(ScopeView::open(base), placed.first());
        lemma_place_all_appends(ScopeView::open(base).inner, placed.first());
        law_nesting_symmetry(scope.inner, placed.drop_first());
    }
}

/// Values placed in the base allocator outside any scope survive a chain of
/// nested scopes opened after them: the contents are then what they were
/// before those values were placed, followed by those values.
pub proof fn law_values_outside_scopes_are_kept<T>(
    base: ArenaView<T>,
    outside: Seq<T>,
    placed: Seq<Seq<T>>,
)
    requires
        base.wf(),
        !base.borrowed,
    ensures
        after_nested_scopes(base.place_all(outside), placed).chunks.contents()
            == base.chunks.contents() + outside,
{
    lemma_place_all_appends(base, outside);
    law_nesting_symmetry(base.place_all(outside), placed);
}

} // verus!

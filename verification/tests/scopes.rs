use scoped_arena::{Arena, BorrowConflict, Slot, SubArena, SubArenaBuilder};

fn slot(chunk: usize, index: usize) -> Slot {
    Slot { chunk, index }
}

fn arena_of(capacity: usize, values: &[u32]) -> Arena<u32> {
    let mut arena = Arena::with_capacity(capacity);
    for value in values {
        assert!(arena.place(*value).is_ok());
    }
    arena
}

#[test]
fn scope_values_are_destroyed_and_earlier_values_kept() {
    let mut arena = Arena::new();
    let x = arena.place(123).unwrap();
    let y = arena.place(456).unwrap();
    {
        let mut sub = SubArena::new(&mut arena).ok().unwrap();
        let z = sub.place(789).unwrap();
        let w = sub.place(4).unwrap();
        assert_eq!(sub.get(z), Some(&789));
        assert_eq!(sub.get(w), Some(&4));
        sub.finish();
    }
    assert_eq!(*arena.get(x).unwrap() + *arena.get(y).unwrap(), 123 + 456);
    assert_eq!(arena.into_vec(), vec![123, 456]);
}

#[test]
fn example_scenario_boundaries_and_restored_contents() {
    let mut arena = arena_of(16, &[1, 2]);
    let mut first = SubArena::new(&mut arena).ok().unwrap();
    assert_eq!(first.boundary(), 2);
    assert_eq!(first.place(3), Ok(slot(0, 2)));
    assert_eq!(first.place(4), Ok(slot(0, 3)));
    {
        let second = SubArena::new(first.arena_mut()).ok().unwrap();
        assert_eq!(second.boundary(), 4);
        second.finish();
    }
    first.finish();
    assert_eq!(arena.get(slot(0, 0)), Some(&1));
    assert_eq!(arena.get(slot(0, 1)), Some(&2));
    assert_eq!(arena.get(slot(0, 2)), None);
    assert_eq!(arena.get(slot(0, 3)), None);
    assert_eq!(arena.into_vec(), vec![1, 2]);
}

#[test]
fn slots_from_before_the_scope_resolve_as_before() {
    let mut arena = arena_of(2, &[10, 20, 30]);
    let before = [slot(0, 0), slot(0, 1), slot(1, 0)];
    assert_eq!(arena.get(before[0]), Some(&10));
    assert_eq!(arena.get(before[1]), Some(&20));
    assert_eq!(arena.get(before[2]), Some(&30));
    let mut sub = SubArena::new(&mut arena).ok().unwrap();
    for value in 0..7 {
        assert!(sub.place(value).is_ok());
    }
    sub.finish();
    assert_eq!(arena.get(before[0]), Some(&10));
    assert_eq!(arena.get(before[1]), Some(&20));
    assert_eq!(arena.get(before[2]), Some(&30));
    assert_eq!(arena.get(slot(1, 1)), None);
    assert_eq!(arena.get(slot(2, 0)), None);
    assert_eq!(arena.get(slot(3, 0)), None);
}

#[test]
fn values_from_before_the_scope_are_readable_inside_it() {
    let mut arena = arena_of(8, &[7, 8]);
    let mut sub = SubArena::new(&mut arena).ok().unwrap();
    assert_eq!(sub.get(slot(0, 0)), Some(&7));
    assert_eq!(sub.get(slot(0, 1)), Some(&8));
    assert_eq!(sub.place(9), Ok(slot(0, 2)));
    assert_eq!(sub.get(slot(0, 2)), Some(&9));
    sub.finish();
    assert_eq!(arena.into_vec(), vec![7, 8]);
}

#[test]
fn unfinished_scope_leaves_the_parent_borrowed() {
    let mut arena = arena_of(4, &[1]);
    {
        let mut sub = SubArena::new(&mut arena).ok().unwrap();
        assert!(sub.place(2).is_ok());
    }
    assert!(arena.is_borrowed());
    assert_eq!(arena.place(3), Err(BorrowConflict));
    assert!(SubArena::new(&mut arena).is_err());
    assert!(SubArenaBuilder::new(&mut arena).is_err());
    assert!(arena.borrow_storage().is_err());
    assert!(arena.is_borrowed());
}

#[test]
fn finished_scope_leaves_the_parent_usable() {
    let mut arena = arena_of(4, &[1]);
    let sub = SubArena::new(&mut arena).ok().unwrap();
    sub.finish();
    assert!(!arena.is_borrowed());
    assert_eq!(arena.place(3), Ok(slot(0, 1)));
    let again = SubArena::new(&mut arena);
    assert!(again.is_ok());
    again.ok().unwrap().finish();
    assert!(SubArenaBuilder::new(&mut arena).is_ok());
}

#[test]
fn refused_value_leaves_no_trace() {
    let mut arena = arena_of(4, &[1, 2]);
    let handle = arena.borrow_storage().ok().unwrap();
    drop(handle);
    assert_eq!(arena.place(3), Err(BorrowConflict));
    assert_eq!(arena.get(slot(0, 2)), None);
    assert_eq!(arena.into_vec(), vec![1, 2]);
}

#[test]
fn released_handle_leaves_the_arena_as_it_was() {
    let mut arena = arena_of(4, &[1, 2]);
    let handle = arena.borrow_storage().ok().unwrap();
    assert_eq!(handle.capacity(), 4);
    handle.release();
    assert!(!arena.is_borrowed());
    assert_eq!(arena.place(3), Ok(slot(0, 2)));
    assert_eq!(arena.into_vec(), vec![1, 2, 3]);
}

#[test]
fn handle_swaps_the_active_buffer() {
    let mut arena = arena_of(4, &[1, 2]);
    let mut handle = arena.borrow_storage().ok().unwrap();
    assert_eq!(handle.take_current_buffer(), vec![1, 2]);
    assert_eq!(handle.replace_current_buffer(vec![5]), Vec::<u32>::new());
    assert_eq!(handle.replace_current_buffer(vec![6, 7]), vec![5]);
    handle.release();
    assert_eq!(arena.into_vec(), vec![6, 7]);
}

#[test]
fn nested_scopes_unwind_to_the_base() {
    let mut arena = arena_of(4, &[1, 2]);
    {
        let mut one = SubArena::new(&mut arena).ok().unwrap();
        assert_eq!(one.boundary(), 2);
        for value in 10..13 {
            assert!(one.place(value).is_ok());
        }
        {
            let mut two = SubArena::new(one.arena_mut()).ok().unwrap();
            for value in 20..29 {
                assert!(two.place(value).is_ok());
            }
            {
                let mut three = SubArena::new(two.arena_mut()).ok().unwrap();
                assert!(three.place(30).is_ok());
                three.finish();
            }
            let late = two.place(29).unwrap();
            assert_eq!(two.get(late), Some(&29));
            two.finish();
        }
        assert!(!one.is_borrowed());
        assert_eq!(one.get(slot(1, 0)), Some(&12));
        assert_eq!(one.get(slot(1, 1)), None);
        one.finish();
    }
    assert!(!arena.is_borrowed());
    assert_eq!(arena.place(3), Ok(slot(0, 2)));
    assert_eq!(arena.into_vec(), vec![1, 2, 3]);
}

#[test]
fn nested_scope_restores_the_enclosing_scope() {
    let mut arena = arena_of(2, &[1]);
    let mut outer = SubArena::new(&mut arena).ok().unwrap();
    assert_eq!(outer.place(2), Ok(slot(0, 1)));
    assert_eq!(outer.place(3), Ok(slot(1, 0)));
    let inner = SubArena::new(outer.arena_mut()).ok().unwrap();
    assert_eq!(inner.boundary(), 1);
    inner.finish();
    assert_eq!(outer.get(slot(0, 0)), Some(&1));
    assert_eq!(outer.get(slot(0, 1)), Some(&2));
    assert_eq!(outer.get(slot(1, 0)), Some(&3));
    assert_eq!(outer.place(4), Ok(slot(1, 1)));
    outer.finish();
    assert_eq!(arena.into_vec(), vec![1]);
}

#[test]
fn unfinished_nested_scope_blocks_the_enclosing_scope() {
    let mut arena = arena_of(4, &[1]);
    let mut outer = SubArena::new(&mut arena).ok().unwrap();
    {
        let _nested = SubArena::new(outer.arena_mut()).ok().unwrap();
    }
    assert!(outer.is_borrowed());
    assert_eq!(outer.place(2), Err(BorrowConflict));
}

#[test]
fn overflowing_scope_destroys_exactly_its_own_values() {
    let mut arena = arena_of(2, &[1, 2, 3]);
    let mut sub = SubArena::new(&mut arena).ok().unwrap();
    assert_eq!(sub.boundary(), 1);
    let mut last = slot(0, 0);
    for value in 100..140 {
        last = sub.place(value).unwrap();
    }
    assert!(last.chunk >= 3);
    assert_eq!(sub.get(last), Some(&139));
    assert_eq!(sub.get(slot(0, 0)), Some(&3));
    sub.finish();
    assert_eq!(arena.get(slot(0, 0)), Some(&1));
    assert_eq!(arena.get(slot(0, 1)), Some(&2));
    assert_eq!(arena.get(slot(1, 0)), Some(&3));
    assert_eq!(arena.get(slot(1, 1)), None);
    assert_eq!(arena.place(4), Ok(slot(1, 1)));
    assert_eq!(arena.into_vec(), vec![1, 2, 3, 4]);
}

#[test]
fn scope_on_a_full_buffer_gives_it_back_full() {
    let mut arena = arena_of(2, &[1, 2]);
    let mut sub = SubArena::new(&mut arena).ok().unwrap();
    assert_eq!(sub.boundary(), 2);
    assert_eq!(sub.place(3), Ok(slot(1, 0)));
    assert_eq!(sub.place(4), Ok(slot(1, 1)));
    assert_eq!(sub.place(5), Ok(slot(1, 2)));
    assert_eq!(sub.place(6), Ok(slot(1, 3)));
    assert_eq!(sub.place(7), Ok(slot(2, 0)));
    sub.finish();
    assert_eq!(arena.place(8), Ok(slot(1, 0)));
    assert_eq!(arena.into_vec(), vec![1, 2, 8]);
}

#[test]
fn empty_scope_changes_nothing() {
    let mut arena = arena_of(2, &[1, 2, 3, 4, 5]);
    let sub = SubArena::new(&mut arena).ok().unwrap();
    assert_eq!(sub.boundary(), 3);
    sub.finish();
    assert!(!arena.is_borrowed());
    assert_eq!(arena.get(slot(0, 1)), Some(&2));
    assert_eq!(arena.get(slot(1, 1)), Some(&4));
    assert_eq!(arena.get(slot(1, 2)), Some(&5));
    assert_eq!(arena.get(slot(1, 3)), None);
    assert_eq!(arena.get(slot(2, 0)), None);
    assert_eq!(arena.into_vec(), vec![1, 2, 3, 4, 5]);
}

#[test]
fn empty_scope_on_an_empty_arena() {
    let mut arena: Arena<u32> = Arena::new();
    let sub = SubArena::new(&mut arena).ok().unwrap();
    assert_eq!(sub.boundary(), 0);
    sub.finish();
    assert_eq!(arena.into_vec(), Vec::<u32>::new());
}

#[test]
fn builder_opens_the_same_scope_in_two_steps() {
    let mut arena = arena_of(4, &[5, 2]);
    let builder = SubArenaBuilder::new(&mut arena).ok().unwrap();
    let mut sub = builder.build();
    assert_eq!(sub.boundary(), 2);
    assert_eq!(sub.place(17), Ok(slot(0, 2)));
    let sum = sub.get(slot(0, 0)).unwrap() + sub.get(slot(0, 1)).unwrap()
        + sub.get(slot(0, 2)).unwrap();
    assert_eq!(sum, 24);
    sub.finish();
    assert_eq!(arena.into_vec(), vec![5, 2]);
}

#[test]
fn unbuilt_builder_leaves_the_parent_borrowed() {
    let mut arena = arena_of(4, &[5]);
    {
        let _builder = SubArenaBuilder::new(&mut arena).ok().unwrap();
    }
    assert!(arena.is_borrowed());
    assert_eq!(arena.get(slot(0, 0)), Some(&5));
    assert_eq!(arena.place(6), Err(BorrowConflict));
}

#[test]
fn from_chunks_takes_the_active_buffer() {
    let mut arena = arena_of(4, &[1, 2, 3]);
    let handle = arena.borrow_storage().ok().unwrap();
    let sub = SubArena::from_chunks(handle);
    assert_eq!(sub.boundary(), 3);
    assert_eq!(sub.boundary, 3);
    assert!(sub.parent_borrow.cell.is_borrowed());
    assert_eq!(sub.parent_borrow.cell.get(slot(0, 0)), None);
    assert_eq!(sub.inner.get(slot(0, 2)), Some(&3));
    sub.finish();
    assert_eq!(arena.get(slot(0, 2)), Some(&3));
}

#[test]
fn works_with_values_that_own_memory() {
    let mut arena: Arena<String> = Arena::with_capacity(1);
    let kept = arena.place(String::from("kept")).unwrap();
    let mut sub = SubArena::new(&mut arena).ok().unwrap();
    let gone = sub.place(String::from("gone")).unwrap();
    assert_eq!(gone, slot(1, 0));
    assert_eq!(sub.get(gone).map(|text| text.as_str()), Some("gone"));
    sub.finish();
    assert_eq!(arena.get(kept).map(|text| text.as_str()), Some("kept"));
    assert_eq!(arena.get(gone), None);
}

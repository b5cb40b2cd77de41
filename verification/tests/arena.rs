use nixtui_core::arena::{ArenaAlloc, ArenaHandle};

#[test]
fn inserts_without_removes_keep_every_value() {
    let mut arena = ArenaAlloc::new();
    let mut handles = Vec::new();
    for value in 0..50_u32 {
        assert!(arena.can_insert());
        handles.push(arena.insert(value * 3));
    }
    for (i, handle) in handles.iter().enumerate() {
        assert_eq!(handle.index, i);
        assert_eq!(handle.generation, 0);
        assert_eq!(arena.get(handle), Some(&(i as u32 * 3)));
    }
    assert_eq!(arena.len(), 50);
}

#[test]
fn removed_handle_is_absent() {
    let mut arena = ArenaAlloc::new();
    let kept = arena.insert("kept");
    let handle = arena.insert("gone");
    arena.remove(handle);
    assert_eq!(arena.get(&handle), None);
    assert_eq!(arena.get(&handle), None);
    assert_eq!(arena.get(&kept), Some(&"kept"));
    assert_eq!(arena.len(), 2);
}

#[test]
fn reused_slot_rejects_the_stale_handle() {
    let mut arena = ArenaAlloc::new();
    let stale = arena.insert(1_u8);
    arena.remove(stale);
    let fresh = arena.insert(2_u8);
    assert_eq!(fresh.index, stale.index);
    assert_eq!(fresh.generation, stale.generation + 1);
    assert_eq!(arena.get(&stale), None);
    assert_eq!(arena.get(&fresh), Some(&2));
}

#[test]
fn insert_fills_the_first_dead_slot() {
    let mut arena = ArenaAlloc::new();
    let handles: Vec<ArenaHandle<usize>> = (0..5).map(|v| arena.insert(v)).collect();
    arena.remove(handles[3]);
    arena.remove(handles[1]);
    let first = arena.insert(10);
    assert_eq!((first.index, first.generation), (1, 1));
    let second = arena.insert(11);
    assert_eq!((second.index, second.generation), (3, 1));
    let third = arena.insert(12);
    assert_eq!((third.index, third.generation), (5, 0));
    assert_eq!(arena.get(&handles[0]), Some(&0));
    assert_eq!(arena.get(&handles[2]), Some(&2));
    assert_eq!(arena.get(&handles[4]), Some(&4));
    assert_eq!(arena.get(&first), Some(&10));
    assert_eq!(arena.get(&second), Some(&11));
    assert_eq!(arena.get(&third), Some(&12));
}

#[test]
fn get_mut_changes_the_value_in_place() {
    let mut arena = ArenaAlloc::new();
    let a = arena.insert(String::from("a"));
    let b = arena.insert(String::from("b"));
    arena.get_mut(&a).unwrap().push('!');
    assert_eq!(arena.get(&a).unwrap(), "a!");
    assert_eq!(arena.get(&b).unwrap(), "b");
    arena.remove(b);
    assert!(arena.get_mut(&b).is_none());
}

#[test]
fn handle_out_of_range_is_absent() {
    let mut arena: ArenaAlloc<u8> = ArenaAlloc::default();
    assert_eq!(arena.get(&ArenaHandle::new(0, 0)), None);
    let handle = arena.insert(5);
    assert_eq!(arena.get(&ArenaHandle::new(1, 0)), None);
    assert_eq!(arena.get(&ArenaHandle::new(0, 1)), None);
    assert_eq!(arena.get(&ArenaHandle::new(handle.index, handle.generation)), Some(&5));
}

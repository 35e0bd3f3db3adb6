use turtle::stack::WindowStack;

fn contents(s: &WindowStack) -> Vec<u64> {
    let mut out = Vec::new();
    let mut i = 0;
    while i < s.len() {
        out.push(s.get(i));
        i += 1;
    }
    out
}

fn stack_of(handles: &[u64]) -> WindowStack {
    let mut s = WindowStack::new();
    for &h in handles.iter().rev() {
        s.bring_to_front(h);
    }
    s
}

#[test]
fn new_stack_is_empty() {
    let s = WindowStack::new();
    assert_eq!(s.len(), 0);
    assert_eq!(s.focused(), None);
}

#[test]
fn bring_to_front_inserts_new_handles() {
    let mut s = WindowStack::new();
    s.bring_to_front(1);
    s.bring_to_front(2);
    s.bring_to_front(3);
    assert_eq!(contents(&s), vec![3, 2, 1]);
    assert_eq!(s.focused(), Some(3));
}

#[test]
fn bring_to_front_reorders_existing_handle() {
    let mut s = stack_of(&[3, 2, 1]);
    s.bring_to_front(1);
    assert_eq!(contents(&s), vec![1, 3, 2]);
}

#[test]
fn push_front_does_not_duplicate() {
    let mut s = stack_of(&[3, 2, 1]);
    s.push_front(2);
    assert_eq!(s.len(), 3);
    assert_eq!(contents(&s), vec![2, 3, 1]);
}

#[test]
fn remove_deletes_the_handle() {
    let mut s = stack_of(&[3, 2, 1]);
    s.remove(2);
    assert_eq!(contents(&s), vec![3, 1]);
    assert!(!s.contains(2));
}

#[test]
fn remove_absent_is_noop() {
    let mut s = stack_of(&[3, 2, 1]);
    s.remove(9);
    assert_eq!(contents(&s), vec![3, 2, 1]);
}

#[test]
fn remove_then_bring_to_front_leaves_one_occurrence() {
    let mut s = stack_of(&[3, 2, 1]);
    s.remove(2);
    s.bring_to_front(2);
    assert_eq!(contents(&s), vec![2, 3, 1]);
    assert_eq!(s.focused(), Some(2));
    assert_eq!(contents(&s).iter().filter(|&&h| h == 2).count(), 1);
}

#[test]
fn rotate_next_wraps_tail_to_front() {
    let mut s = stack_of(&[1, 2, 3]);
    s.rotate_next();
    assert_eq!(contents(&s), vec![3, 1, 2]);
}

#[test]
fn rotate_prev_wraps_front_to_tail() {
    let mut s = stack_of(&[1, 2, 3]);
    s.rotate_prev();
    assert_eq!(contents(&s), vec![2, 3, 1]);
}

#[test]
fn rotate_round_trip_restores_order() {
    let mut s = stack_of(&[10, 20, 30, 40]);
    s.rotate_next();
    s.rotate_prev();
    assert_eq!(contents(&s), vec![10, 20, 30, 40]);
}

#[test]
fn rotate_on_empty_is_noop() {
    let mut s = WindowStack::new();
    s.rotate_next();
    s.rotate_prev();
    assert_eq!(s.len(), 0);
}

#[test]
fn rotate_single_is_noop() {
    let mut s = stack_of(&[7]);
    s.rotate_next();
    assert_eq!(contents(&s), vec![7]);
    s.rotate_prev();
    assert_eq!(contents(&s), vec![7]);
}

#[test]
fn swap_to_last_focused_toggles_first_two() {
    let a = 1;
    let b = 2;
    let c = 3;
    let mut s = stack_of(&[a, b, c]);
    s.swap_to_last_focused();
    assert_eq!(contents(&s), vec![b, a, c]);
    s.swap_to_last_focused();
    assert_eq!(contents(&s), vec![a, b, c]);
}

#[test]
fn swap_to_last_focused_needs_two() {
    let mut s = stack_of(&[5]);
    s.swap_to_last_focused();
    assert_eq!(contents(&s), vec![5]);
    let mut e = WindowStack::new();
    e.swap_to_last_focused();
    assert_eq!(e.len(), 0);
}

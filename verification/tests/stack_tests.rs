use blockingstack::Stack;
use blockingstack::StackError;

#[test]
fn new_stack_is_empty() {
    let s: Stack<i32> = Stack::new(10);
    assert_eq!(0, s.size());
    assert!(s.is_empty());
    assert!(!s.is_full());
}

#[test]
fn push_then_pop_is_lifo() {
    let mut s: Stack<i32> = Stack::new(10);
    for x in [1, 2, 3, 4, 5] {
        assert_eq!(Ok(()), s.push(x));
    }
    assert_eq!(5, s.size());
    assert_eq!(Ok(5), s.pop());
    assert_eq!(Ok(4), s.pop());
    assert_eq!(Ok(3), s.pop());
    assert_eq!(2, s.size());
}

#[test]
fn push_on_full_fails_without_side_effect() {
    let mut s: Stack<i32> = Stack::new(2);
    assert_eq!(Ok(()), s.push(10));
    assert_eq!(Ok(()), s.push(20));
    assert!(s.is_full());
    assert_eq!(Err(StackError::StackFull), s.push(30));
    assert_eq!(2, s.size());
    assert_eq!(Ok(20), s.pop());
    assert_eq!(Ok(10), s.pop());
}

#[test]
fn pop_on_empty_fails_without_side_effect() {
    let mut s: Stack<i32> = Stack::new(3);
    assert_eq!(Err(StackError::StackEmpty), s.pop());
    assert_eq!(0, s.size());
    assert_eq!(Ok(()), s.push(7));
    assert_eq!(Ok(7), s.pop());
    assert_eq!(Err(StackError::StackEmpty), s.pop());
}

#[test]
fn zero_capacity_is_both_empty_and_full() {
    let mut s: Stack<i32> = Stack::new(0);
    assert!(s.is_empty());
    assert!(s.is_full());
    assert_eq!(Err(StackError::StackFull), s.push(1));
    assert_eq!(Err(StackError::StackEmpty), s.pop());
    assert_eq!(0, s.size());
}

#[test]
fn clear_empties_and_is_idempotent() {
    let mut s: Stack<i32> = Stack::new(5);
    s.clear();
    assert_eq!(0, s.size());
    for x in [1, 2, 3] {
        assert_eq!(Ok(()), s.push(x));
    }
    s.clear();
    assert_eq!(0, s.size());
    s.clear();
    assert_eq!(0, s.size());
    assert_eq!(Ok(()), s.push(9));
    assert_eq!(Ok(9), s.pop());
}

#[test]
fn size_never_exceeds_capacity() {
    let mut s: Stack<i32> = Stack::new(4);
    for x in 0..20 {
        let _ = s.push(x);
        assert!(s.size() <= 4);
    }
    assert_eq!(4, s.size());
}

#[test]
fn balanced_pushes_and_pops_conserve_values() {
    let mut s: Stack<i32> = Stack::new(8);
    let pushed = [3, 1, 4, 1, 5];
    for x in pushed {
        assert_eq!(Ok(()), s.push(x));
    }
    let mut popped: Vec<i32> = Vec::new();
    while let Ok(v) = s.pop() {
        popped.push(v);
    }
    assert_eq!(0, s.size());
    let mut a = pushed.to_vec();
    a.sort();
    popped.sort();
    assert_eq!(a, popped);
}

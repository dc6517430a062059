use rust_datastructures::{reversed, Stack};

#[test]
fn stack_lifecycle() {
    let mut list = Stack::new();
    assert_eq!(list.pop(), None);
    assert_eq!(list.pop(), None);

    list.push(2);
    assert_eq!(list.pop(), Some(2));
    assert_eq!(list.pop(), None);
    assert_eq!(list.pop(), None);

    list.push(2);
    list.push(3);
    assert_eq!(list.pop(), Some(3));
    assert_eq!(list.pop(), Some(2));
    assert_eq!(list.pop(), None);
    assert_eq!(list.pop(), None);
}

#[test]
fn pops_return_pushes_in_reverse() {
    let mut s = Stack::new();
    for x in 1..=5u32 {
        s.push(x);
    }
    assert_eq!(s.pop(), Some(5));
    assert_eq!(s.pop(), Some(4));
    assert_eq!(s.pop(), Some(3));
    assert_eq!(s.pop(), Some(2));
    assert_eq!(s.pop(), Some(1));
    assert_eq!(s.pop(), None);
}

#[test]
fn pop_on_new_stack_stays_empty() {
    let mut s = Stack::<i8>::new();
    for _ in 0..10 {
        assert_eq!(s.pop(), None);
    }
    s.push(-1);
    assert_eq!(s.pop(), Some(-1));
    assert_eq!(s.pop(), None);
}

#[test]
fn push_then_pop_restores_the_stack() {
    let mut s = Stack::new();
    s.push(1u8);
    s.push(2u8);
    s.push(9u8);
    assert_eq!(s.pop(), Some(9));
    assert_eq!(s.pop(), Some(2));
    assert_eq!(s.pop(), Some(1));
    assert_eq!(s.pop(), None);
}

#[test]
fn depth_after_some_pops() {
    let mut s = Stack::new();
    for x in 1..=6u64 {
        s.push(x);
    }
    assert_eq!(s.pop(), Some(6));
    assert_eq!(s.pop(), Some(5));
    let mut left = Vec::new();
    while let Some(x) = s.pop() {
        left.push(x);
    }
    assert_eq!(left, vec![4, 3, 2, 1]);
}

#[test]
fn scenario_empty_pops() {
    let mut s = Stack::<i32>::new();
    assert_eq!(s.pop(), None);
    assert_eq!(s.pop(), None);
}

#[test]
fn scenario_one_push() {
    let mut s = Stack::new();
    s.push(2);
    assert_eq!(s.pop(), Some(2));
    assert_eq!(s.pop(), None);
    assert_eq!(s.pop(), None);
}

#[test]
fn scenario_two_pushes() {
    let mut s = Stack::new();
    s.push(2);
    s.push(3);
    assert_eq!(s.pop(), Some(3));
    assert_eq!(s.pop(), Some(2));
    assert_eq!(s.pop(), None);
    assert_eq!(s.pop(), None);
}

#[test]
fn interleaved_pushes_and_pops() {
    let mut s = Stack::new();
    s.push('a');
    s.push('b');
    assert_eq!(s.pop(), Some('b'));
    s.push('c');
    s.push('d');
    assert_eq!(s.pop(), Some('d'));
    assert_eq!(s.pop(), Some('c'));
    assert_eq!(s.pop(), Some('a'));
    assert_eq!(s.pop(), None);
}

#[test]
fn owned_values_move_in_and_out() {
    let mut s = Stack::new();
    s.push(String::from("first"));
    s.push(String::from("second"));
    assert_eq!(s.pop(), Some(String::from("second")));
    assert_eq!(s.pop(), Some(String::from("first")));
    assert_eq!(s.pop(), None);
}

#[test]
fn arguments_come_back_reversed() {
    let args = vec![String::from("a"), String::from("b"), String::from("c")];
    let out = reversed(args);
    assert_eq!(out, vec![String::from("c"), String::from("b"), String::from("a")]);
}

#[test]
fn reversing_nothing_gives_nothing() {
    let out: Vec<u32> = reversed(Vec::new());
    assert!(out.is_empty());
    assert_eq!(reversed(vec![7u32]), vec![7]);
}

#[test]
fn deep_stack_drops_without_overflow() {
    let mut s = Stack::new();
    for x in 0..1_000_000u32 {
        s.push(x);
    }
    assert_eq!(s.pop(), Some(999_999));
    drop(s);
}

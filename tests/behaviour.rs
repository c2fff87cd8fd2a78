use stack::Stack;

#[test]
fn fresh_stack_reports_empty() {
    let mut stack: Stack<i32> = Stack::new();
    assert!(stack.peek().is_none());
    assert!(stack.peek_mut().is_none());
    assert!(stack.pop().is_none());
    assert!(stack.iter().next().is_none());
    assert!(stack.iter_mut().next().is_none());
}

#[test]
fn pops_come_back_in_reverse_order() {
    let mut stack = Stack::new();
    stack.push('a');
    stack.push('b');
    stack.push('c');
    assert_eq!(stack.pop(), Some('c'));
    assert_eq!(stack.pop(), Some('b'));
    assert_eq!(stack.pop(), Some('a'));
    assert_eq!(stack.pop(), None);
    assert_eq!(stack.pop(), None);
}

#[test]
fn pop_after_push_restores_the_stack() {
    let mut stack = Stack::new();
    stack.push(10);
    stack.push(20);
    stack.push(30);
    assert_eq!(stack.pop(), Some(30));
    let rest: Vec<i32> = {
        let mut it = stack.iter();
        let mut v = Vec::new();
        while let Some(x) = it.next() {
            v.push(*x);
        }
        v
    };
    assert_eq!(rest, vec![20, 10]);
}

#[test]
fn peek_agrees_with_following_pop() {
    let mut stack = Stack::new();
    for i in 0..5 {
        stack.push(i * 7);
    }
    loop {
        let seen = stack.peek().copied();
        let taken = stack.pop();
        assert_eq!(seen, taken);
        if taken.is_none() {
            break;
        }
    }
}

#[test]
fn write_through_peek_mut_is_seen_by_peek_and_pop() {
    let mut stack = Stack::new();
    stack.push(String::from("bottom"));
    stack.push(String::from("top"));
    if let Some(top) = stack.peek_mut() {
        *top = String::from("changed");
    }
    assert_eq!(stack.peek().map(|s| s.as_str()), Some("changed"));
    assert_eq!(stack.pop(), Some(String::from("changed")));
    assert_eq!(stack.pop(), Some(String::from("bottom")));
    assert_eq!(stack.pop(), None);
}

#[test]
fn iteration_leaves_the_stack_unchanged() {
    let mut stack = Stack::new();
    stack.push(5);
    stack.push(4);
    let mut iter = stack.iter();
    assert_eq!(iter.next(), Some(&4));
    assert_eq!(iter.next(), Some(&5));
    assert_eq!(iter.next(), None);
    assert_eq!(iter.next(), None);
    assert_eq!(stack.pop(), Some(4));
    assert_eq!(stack.pop(), Some(5));
}

#[test]
fn iter_mut_yields_top_first_and_writes_land_in_the_stack() {
    let mut stack = Stack::new();
    stack.push(1);
    stack.push(2);
    stack.push(6);
    {
        let mut iter = stack.iter_mut();
        let first = iter.next().unwrap();
        assert_eq!(*first, 6);
        *first = 60;
        let second = iter.next().unwrap();
        assert_eq!(*second, 2);
        *second = 20;
        assert_eq!(iter.next(), Some(&mut 1));
        assert_eq!(iter.next(), None);
        assert_eq!(iter.next(), None);
    }
    assert_eq!(stack.pop(), Some(60));
    assert_eq!(stack.pop(), Some(20));
    assert_eq!(stack.pop(), Some(1));
    assert_eq!(stack.pop(), None);
}

#[test]
fn stack_holds_values_that_cannot_be_copied() {
    let mut stack = Stack::new();
    stack.push(vec![1, 2]);
    stack.push(vec![3]);
    assert_eq!(stack.pop(), Some(vec![3]));
    assert_eq!(stack.peek(), Some(&vec![1, 2]));
}

#[test]
fn dropping_a_long_stack_does_not_overflow() {
    let mut stack = Stack::new();
    for i in 0..200_000u32 {
        stack.push(i);
    }
    assert_eq!(stack.peek(), Some(&199_999));
    drop(stack);
}

#[test]
fn dropping_a_long_partly_popped_stack() {
    let mut stack = Stack::new();
    for i in 0..150_000u64 {
        stack.push(i);
    }
    for _ in 0..1_000 {
        stack.pop();
    }
    assert_eq!(stack.pop(), Some(148_999));
}

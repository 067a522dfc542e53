use linked_stack::Stack;

#[test]
fn basics() {
    let mut s = Stack::new();
    s.push(2);
    s.push(3);
    s.push(4);

    assert_eq!(4, s.pop().unwrap());
    assert_eq!(3, s.pop().unwrap());

    s.push(5);

    assert_eq!(5, s.pop().unwrap());
    assert_eq!(2, s.pop().unwrap());
    assert_eq!(None, s.pop());
}

#[test]
fn large_stack() {
    let mut s = Stack::new();
    for i in 1..=100_000 {
        s.push(i);
    }

    for i in (1..=100_000).rev() {
        assert_eq!(i, s.pop().unwrap());
    }
}

#[test]
fn into_iter() {
    let mut s = Stack::new();
    for i in 1..=5 {
        s.push(i);
    }

    let mut iter = s.into_iter();
    for i in (1..=5).rev() {
        assert_eq!(i, iter.next().unwrap());
    }
    assert_eq!(None, iter.next());
}

#[test]
fn iter() {
    let mut s = Stack::new();

    for i in 1..=5 {
        s.push(i);
    }

    let mut iter = s.iter();
    for i in (1..=5).rev() {
        assert_eq!(&i, iter.next().unwrap());
    }
    assert_eq!(None, iter.next());
}

#[test]
fn iter_mut() {
    let mut s = Stack::new();

    for i in 1..=5 {
        s.push(i);
    }

    let mut iter = s.iter_mut();
    for mut i in (1..=5).rev() {
        assert_eq!(&mut i, iter.next().unwrap());
    }
    assert_eq!(None, iter.next());
}

#[test]
fn pop_on_empty_repeats() {
    let mut s: Stack<u32> = Stack::new();
    assert_eq!(None, s.pop());
    assert_eq!(None, s.pop());
    assert_eq!(None, s.pop());

    s.push(7);
    assert_eq!(Some(7), s.pop());
    assert_eq!(None, s.pop());
    assert_eq!(None, s.pop());
}

#[test]
fn large_stack_dropped_while_full() {
    let mut s = Stack::new();
    for i in 1..=100_000 {
        s.push(i);
    }
    assert_eq!(Some(&100_000), s.peek());
    drop(s);
}

#[test]
fn into_iter_exhaustion_is_idempotent() {
    let mut s = Stack::new();
    s.push(1);
    let mut iter = s.into_iter();
    assert_eq!(Some(1), iter.next());
    assert_eq!(None, iter.next());
    assert_eq!(None, iter.next());
    assert_eq!(None, iter.next());
}

#[test]
fn iter_leaves_pops_unchanged() {
    let mut s = Stack::new();
    for i in 1..=5 {
        s.push(i);
    }

    let mut collected = Vec::new();
    let mut iter = s.iter();
    while let Some(v) = iter.next() {
        collected.push(*v);
    }
    assert_eq!(vec![5, 4, 3, 2, 1], collected);

    for i in (1..=5).rev() {
        assert_eq!(Some(i), s.pop());
    }
    assert_eq!(None, s.pop());
}

#[test]
fn two_read_only_cursors_coexist() {
    let mut s = Stack::new();
    s.push(10);
    s.push(20);

    let mut a = s.iter();
    let mut b = s.iter();
    assert_eq!(Some(&20), a.next());
    assert_eq!(Some(&20), b.next());
    assert_eq!(Some(&10), a.next());
    assert_eq!(None, a.next());
    assert_eq!(Some(&10), b.next());
    assert_eq!(None, b.next());
}

#[test]
fn iter_mut_write_persists() {
    let mut s = Stack::new();
    for i in 1..=5 {
        s.push(i);
    }

    {
        let mut iter = s.iter_mut();
        assert_eq!(Some(&mut 5), iter.next());
        assert_eq!(Some(&mut 4), iter.next());
        let third = iter.next().unwrap();
        *third = 42;
    }

    assert_eq!(Some(5), s.pop());
    assert_eq!(Some(4), s.pop());
    assert_eq!(Some(42), s.pop());
    assert_eq!(Some(2), s.pop());
    assert_eq!(Some(1), s.pop());
    assert_eq!(None, s.pop());
}

#[test]
fn peek_reads_without_disturbing() {
    let mut s: Stack<i64> = Stack::new();
    assert_eq!(None, s.peek());

    s.push(8);
    s.push(9);
    assert_eq!(Some(&9), s.peek());
    assert_eq!(Some(&9), s.peek());
    assert_eq!(Some(9), s.pop());
    assert_eq!(Some(&8), s.peek());
}

#[test]
fn peek_mut_replaces_top_in_place() {
    let mut s: Stack<i64> = Stack::new();
    assert_eq!(None, s.peek_mut());

    s.push(1);
    s.push(2);
    if let Some(top) = s.peek_mut() {
        *top = 99;
    }
    assert_eq!(Some(99), s.pop());
    assert_eq!(Some(1), s.pop());
    assert_eq!(None, s.pop());
}

#[test]
fn push_pop_round_trips() {
    let mut s = Stack::new();
    for i in 0..64 {
        s.push(i);
        assert_eq!(Some(i), s.pop());
    }
    assert_eq!(None, s.peek());
    assert_eq!(None, s.pop());
}

#[test]
fn clone_copies_the_whole_chain() {
    let mut s = Stack::new();
    s.push(1);
    s.push(2);
    s.push(3);

    let mut c = s.clone();
    assert_eq!(Some(3), c.pop());
    assert_eq!(Some(2), c.pop());
    assert_eq!(Some(1), c.pop());
    assert_eq!(None, c.pop());

    assert_eq!(Some(&3), s.peek());
    assert_eq!(Some(3), s.pop());
    assert_eq!(Some(2), s.pop());
    assert_eq!(Some(1), s.pop());
    assert_eq!(None, s.pop());
}

#[test]
fn default_is_empty() {
    let mut s: Stack<u8> = Stack::default();
    assert_eq!(None, s.peek());
    assert_eq!(None, s.pop());
}

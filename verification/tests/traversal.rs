use toy_vec::{Iter, ToyVec};

#[test]
fn exhausted_traversal_stays_exhausted() {
    let mut v = ToyVec::<usize>::with_capacity(2);
    v.push(100);
    v.push(200);

    let mut it = v.iter();
    assert_eq!(Some(&100), it.next());
    assert_eq!(Some(&200), it.next());
    for _ in 0..5 {
        assert_eq!(None, it.next());
    }
}

#[test]
fn traversal_of_nothing() {
    let v = ToyVec::<u8>::with_capacity(4);
    let mut it = v.iter();
    assert_eq!(None, it.next());
    assert_eq!(None, it.next());

    let w = ToyVec::<u8>::new();
    assert_eq!(None, w.iter().next());
}

#[test]
fn traversal_skips_unused_slots() {
    let mut v = ToyVec::<i32>::with_capacity(10);
    v.push(1);
    v.push(2);
    v.push(3);
    let seen: Vec<i32> = v.iter().copied().collect();
    assert_eq!(vec![1, 2, 3], seen);
}

#[test]
fn traversal_follows_the_order_of_pushes_across_growth() {
    let mut v = ToyVec::<usize>::new();
    for k in 0..37 {
        v.push(37 - k);
    }
    let mut it = v.iter();
    for k in 0..37 {
        assert_eq!(Some(&(37 - k)), it.next());
    }
    assert_eq!(None, it.next());
}

#[test]
fn for_loop_sees_what_iter_hands_out() {
    let mut v = ToyVec::<String>::with_capacity(1);
    for word in ["a", "bb", "", "dddd"] {
        v.push(String::from(word));
    }

    let mut by_iter: Vec<&String> = Vec::new();
    let mut it = v.iter();
    while let Some(s) = it.next() {
        by_iter.push(s);
    }

    let mut by_for: Vec<&String> = Vec::new();
    for s in &v {
        by_for.push(s);
    }

    assert_eq!(by_iter, by_for);
    assert_eq!(4, by_for.len());
    assert_eq!("a", by_for[0]);
    assert_eq!("bb", by_for[1]);
    assert_eq!("", by_for[2]);
    assert_eq!("dddd", by_for[3]);
}

#[test]
fn into_iter_of_a_borrow_is_an_iter() {
    let mut v = ToyVec::<u8>::new();
    v.push(4);
    let mut it: Iter<'_, u8> = (&v).into_iter();
    assert_eq!(Some(&4), it.next());
    assert_eq!(None, it.next());
}

#[test]
fn two_traversals_do_not_disturb_each_other() {
    let mut v = ToyVec::<u8>::new();
    v.push(1);
    v.push(2);
    let mut a = v.iter();
    let mut b = v.iter();
    assert_eq!(Some(&1), a.next());
    assert_eq!(Some(&1), b.next());
    assert_eq!(Some(&2), a.next());
    assert_eq!(None, a.next());
    assert_eq!(Some(&2), b.next());
    assert_eq!(None, b.next());
}

#[test]
fn push_is_possible_again_once_the_traversal_is_done() {
    let mut v = ToyVec::new();
    v.push("first");
    v.push("second");

    let mut it = v.iter();
    assert_eq!(Some(&"first"), it.next());

    v.push("third");
    assert_eq!(3, v.len());
    assert_eq!(Some(&"third"), v.get(2));

    let seen: Vec<&str> = v.iter().copied().collect();
    assert_eq!(vec!["first", "second", "third"], seen);
}

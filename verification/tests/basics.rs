use toy_vec::ToyVec;

#[test]
fn new() {
    let toyvec = ToyVec::<usize>::new();
    assert_eq!(0, toyvec.len());
    assert_eq!(0, toyvec.capacity());
}

#[test]
fn with_capacity() {
    let toyvec = ToyVec::<usize>::with_capacity(3);
    assert_eq!(0, toyvec.len());
    assert_eq!(3, toyvec.capacity());
}

#[test]
fn get() {
    let toyvec = ToyVec::<usize>::with_capacity(3);
    assert_eq!(None, toyvec.get(0));
    assert_eq!(None, toyvec.get(3));
}

#[test]
fn push_without_grow() {
    let mut toyvec = ToyVec::<usize>::with_capacity(3);
    toyvec.push(100);
    assert_eq!(Some(&100), toyvec.get(0));
    assert_eq!(None, toyvec.get(3));
}

#[test]
fn push_with_grow01() {
    let mut toyvec = ToyVec::<usize>::new();
    toyvec.push(100);

    assert_eq!(Some(&100), toyvec.get(0));
    assert_eq!(None, toyvec.get(1));
}

#[test]
fn push_with_grow02() {
    let mut toyvec = ToyVec::<usize>::with_capacity(2);
    toyvec.push(100);
    toyvec.push(200);
    toyvec.push(300);

    assert_eq!(Some(&100), toyvec.get(0));
    assert_eq!(Some(&200), toyvec.get(1));
    assert_eq!(Some(&300), toyvec.get(2));
    assert_eq!(None, toyvec.get(3));
}

#[test]
fn iterator() {
    let mut toyvec = ToyVec::<usize>::with_capacity(2);
    toyvec.push(100);
    toyvec.push(200);

    let mut iter = toyvec.iter();
    assert_eq!(Some(&100), iter.next());
    assert_eq!(Some(&200), iter.next());
    assert_eq!(None, iter.next());
}

#[test]
fn into_iterator() {
    let mut toyvec = ToyVec::<usize>::with_capacity(2);
    toyvec.push(100);
    toyvec.push(200);

    let mut i = 1;
    for element in &toyvec {
        assert_eq!(&(i * 100), element);
        i += 1;
    }
}

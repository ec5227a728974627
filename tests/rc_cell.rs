use minigw::RcCell;

#[test]
fn shared_value_is_seen_by_every_clone() {
    let a = RcCell::new(5u32);
    assert_eq!(a.strong_count(), 1);
    let b = a.clone();
    assert_eq!(a.strong_count(), 2);
    *b.as_mut().unwrap() += 1;
    assert_eq!(*a.as_ref().unwrap(), 6);
    drop(b);
    assert_eq!(a.strong_count(), 1);
}

#[test]
fn borrows_are_refused_while_mutably_borrowed() {
    let a = RcCell::new(vec![1u8]);
    let m = a.as_mut().unwrap();
    assert!(a.as_ref().is_none());
    assert!(a.as_mut().is_none());
    drop(m);
    let r1 = a.as_ref().unwrap();
    let r2 = a.as_ref().unwrap();
    assert_eq!(*r1, *r2);
    assert!(a.as_mut().is_none());
}

use shared_ptr::SharedPtr;

#[test]
fn new_then_deref_returns_value() {
    let p = SharedPtr::new(42u64);
    assert_eq!(*p.deref(), 42u64);

    let s = SharedPtr::new(String::from("shared"));
    assert_eq!(s.deref().as_str(), "shared");
}

#[test]
fn from_is_equivalent_to_new() {
    let a = SharedPtr::from(7i32);
    let b = SharedPtr::new(7i32);
    assert_eq!(*a.deref(), *b.deref());
    assert!(a == b);
}

#[test]
fn clone_derefs_to_equal_value() {
    let p = SharedPtr::new(vec![1u8, 2, 3]);
    let q = p.clone();
    assert_eq!(p.deref(), q.deref());
    assert_eq!(q.deref().as_slice(), &[1u8, 2, 3]);
}

#[test]
fn dropping_other_clones_leaves_value() {
    let p = SharedPtr::new(String::from("survivor"));
    let q = p.clone();
    let r = q.clone();
    drop(p);
    drop(q);
    assert_eq!(r.deref().as_str(), "survivor");
}

#[test]
fn dropping_original_leaves_clone() {
    let p = SharedPtr::new(99u32);
    let q = p.clone();
    drop(p);
    assert_eq!(*q.deref(), 99u32);
}

#[test]
fn equality_matches_plain_values() {
    let x = 3u64;
    let y = 3u64;
    let z = 5u64;
    assert_eq!(SharedPtr::new(x) == SharedPtr::new(y), x == y);
    assert_eq!(SharedPtr::new(x) == SharedPtr::new(z), x == z);
    assert_eq!(SharedPtr::new(x) != SharedPtr::new(z), x != z);
}

#[test]
fn ordering_matches_plain_values() {
    let a = 2i64;
    let b = 9i64;
    assert_eq!(
        SharedPtr::new(a).partial_cmp(&SharedPtr::new(b)),
        a.partial_cmp(&b)
    );
    assert_eq!(
        SharedPtr::new(b).partial_cmp(&SharedPtr::new(a)),
        b.partial_cmp(&a)
    );
    assert_eq!(
        SharedPtr::new(a).partial_cmp(&SharedPtr::new(a)),
        a.partial_cmp(&a)
    );
    assert_eq!(SharedPtr::new(a) < SharedPtr::new(b), a < b);
    assert_eq!(SharedPtr::new(b) <= SharedPtr::new(a), b <= a);
    assert_eq!(SharedPtr::new(b) > SharedPtr::new(a), b > a);
}

#[test]
fn equality_on_clones_is_preserved() {
    let p = SharedPtr::new(String::from("same"));
    let q = p.clone();
    assert!(p == q);
    assert!(q == p);
}

#[test]
fn debug_rendering_delegates_to_value() {
    let p = SharedPtr::new(11u8);
    let rendered = format!("{:?}", p);
    assert_eq!(rendered, "SharedPtr(11)");
}
